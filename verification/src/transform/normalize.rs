use vstd::prelude::*;

use crate::codecs::sample_at;
use crate::io::endian;
use crate::io::error::IoResult;
use crate::model::frame::{Frame, FrameAudio, FrameData};
use crate::model::traits::Transform;
use crate::transform::{clamp_sample, clamp_to_i16, get_sample, scale_trunc, set_sample, tdiv};

verus! {

pub open spec fn abs_val(v: int) -> int {
    if v < 0 {
        -v
    } else {
        v
    }
}

/// The largest sample magnitude among the first `n` samples.
pub open spec fn peak_upto(b: Seq<u8>, n: int) -> int
    decreases n,
{
    if n <= 0 {
        0
    } else {
        let prev = peak_upto(b, n - 1);
        let cur = abs_val(sample_at(b, n - 1));
        if cur > prev {
            cur
        } else {
            prev
        }
    }
}

/// The peak magnitude of a whole buffer.
pub open spec fn peak_of(b: Seq<u8>) -> int {
    peak_upto(b, b.len() as int / 2)
}

/// One sample rescaled so a peak of `m` maps to `t`.
pub open spec fn norm_sample(t: int, m: int, s: int) -> int {
    clamp_sample(tdiv(s * t, m))
}

/// The whole buffer rescaled; silence and empty buffers stay as they are,
/// and a trailing odd byte is kept.
pub open spec fn normalize_bytes(t: int, b: Seq<u8>) -> Seq<u8> {
    let m = peak_of(b);
    if b.len() < 2 || m == 0 {
        b
    } else {
        Seq::new(
            b.len(),
            |i: int|
                if i < 2 * (b.len() as int / 2) {
                    let g = norm_sample(t, m, sample_at(b, i / 2)) as i16;
                    if i % 2 == 0 {
                        endian::le16_signed_bytes(g)[0]
                    } else {
                        endian::le16_signed_bytes(g)[1]
                    }
                } else {
                    b[i]
                },
        )
    }
}

/// Rescales each audio frame so that its largest sample magnitude lands on
/// the configured target. Video frames pass through unchanged.
pub struct Normalize {
    pub target: i32,
}

/// The target peak sample for a ratio `num / den` of full scale.
pub open spec fn norm_target(num: int, den: int) -> int {
    if den == 0 {
        32767
    } else if 32767 * num / den > 32767 {
        32767
    } else {
        32767 * num / den
    }
}

impl Normalize {
    /// The target peak as a fraction `num / den` of full scale, clamped to
    /// full scale.
    pub fn new(num: u32, den: u32) -> (r: Normalize)
        ensures
            r.target == norm_target(num as int, den as int),
            0 <= r.target <= 32767,
    {
        if den == 0 {
            proof {
                vstd::arithmetic::div_mod::lemma_div_is_ordered_by_denominator(32767, 1, 1);
            }
            return Normalize { target: 32767 };
        }
        let scaled: u64 = 32767u64 * num as u64 / den as u64;
        proof {
            vstd::arithmetic::mul::lemma_mul_upper_bound(
                32767,
                32767,
                num as int,
                u32::MAX as int,
            );
            vstd::arithmetic::div_mod::lemma_div_nonincreasing(
                32767 * num as int,
                den as int,
            );
        }
        if scaled > 32767 {
            Normalize { target: 32767 }
        } else {
            Normalize { target: scaled as i32 }
        }
    }

    /// The conventional default: 95% of full scale.
    pub fn default_peak() -> (r: Normalize)
        ensures
            r.target == norm_target(95, 100),
    {
        Normalize::new(95, 100)
    }
}

/// Every sample magnitude is bounded by the buffer's peak.
proof fn lemma_peak_bounds(b: Seq<u8>, n: int, i: int)
    requires
        0 <= i < n,
    ensures
        abs_val(sample_at(b, i)) <= peak_upto(b, n),
    decreases n,
{
    if i < n - 1 {
        lemma_peak_bounds(b, n - 1, i);
    }
}

/// A non-zero peak is attained by some sample.
proof fn lemma_peak_attained(b: Seq<u8>, n: int)
    requires
        n > 0,
    ensures
        exists|i: int| 0 <= i < n && abs_val(sample_at(b, i)) == peak_upto(b, n),
    decreases n,
{
    if n == 1 {
        assert(peak_upto(b, 0) == 0);
        assert(abs_val(sample_at(b, 0)) >= 0);
        assert(abs_val(sample_at(b, 0)) == peak_upto(b, 1));
    } else {
        lemma_peak_attained(b, n - 1);
        if abs_val(sample_at(b, n - 1)) > peak_upto(b, n - 1) {
            assert(abs_val(sample_at(b, n - 1)) == peak_upto(b, n));
        } else {
            assert(peak_upto(b, n) == peak_upto(b, n - 1));
        }
    }
}

/// `tdiv` keeps magnitudes ordered: scaling a sample within the peak by
/// `t / m` never exceeds `t`.
proof fn lemma_norm_sample_bound(t: int, m: int, s: int)
    requires
        0 <= t <= 32767,
        m > 0,
        abs_val(s) <= m,
    ensures
        abs_val(norm_sample(t, m, s)) <= t,
        abs_val(s) == m ==> norm_sample(t, m, s) == if s >= 0 {
            t
        } else {
            -t
        },
{
    if s >= 0 {
        assert(s * t <= m * t) by (nonlinear_arith)
            requires
                0 <= s <= m && t >= 0,
        ;
        assert(s * t >= 0) by (nonlinear_arith)
            requires
                s >= 0 && t >= 0,
        ;
        vstd::arithmetic::div_mod::lemma_div_is_ordered(s * t, m * t, m);
        vstd::arithmetic::div_mod::lemma_div_multiples_vanish(t, m);
        assert(m * t == t * m) by (nonlinear_arith);
        vstd::arithmetic::div_mod::lemma_div_pos_is_pos(s * t, m);
        if s == m {
            assert(s * t == m * t) by (nonlinear_arith)
                requires
                    s == m,
            ;
        }
    } else {
        let p = -s;
        assert(p * t <= m * t) by (nonlinear_arith)
            requires
                0 <= p <= m && t >= 0,
        ;
        assert(p * t >= 0) by (nonlinear_arith)
            requires
                p >= 0 && t >= 0,
        ;
        assert(-(s * t) == p * t) by (nonlinear_arith)
            requires
                p == -s,
        ;
        vstd::arithmetic::div_mod::lemma_div_is_ordered(p * t, m * t, m);
        vstd::arithmetic::div_mod::lemma_div_multiples_vanish(t, m);
        assert(m * t == t * m) by (nonlinear_arith);
        vstd::arithmetic::div_mod::lemma_div_pos_is_pos(p * t, m);
        if p == m {
            assert(p * t == m * t) by (nonlinear_arith)
                requires
                    p == m,
            ;
        }
    }
}

/// Rescaling to a target it already sits at changes nothing: dividing
/// `v * t` by a peak of exactly `t` hands each sample back.
proof fn lemma_norm_fixed(t: int, v: int)
    requires
        t > 0,
        abs_val(v) <= t <= 32767,
    ensures
        norm_sample(t, t, v) == v,
{
    if v >= 0 {
        vstd::arithmetic::div_mod::lemma_div_multiples_vanish(v, t);
        assert(v * t == t * v) by (nonlinear_arith);
    } else {
        vstd::arithmetic::div_mod::lemma_div_multiples_vanish(-v, t);
        assert(-(v * t) == t * (-v) && v * t < 0) by (nonlinear_arith)
            requires
                v < 0 && t > 0,
        ;
    }
}

/// Normalizing is idempotent: a second pass at the same target returns the
/// buffer of the first pass byte for byte.
pub proof fn lemma_normalize_idempotent(t: int, b: Seq<u8>)
    requires
        0 <= t <= 32767,
    ensures
        normalize_bytes(t, normalize_bytes(t, b)) == normalize_bytes(t, b),
{
    let m = peak_of(b);
    let nsamp = b.len() as int / 2;
    if b.len() < 2 || m == 0 {
    } else {
        let c = normalize_bytes(t, b);
        assert(c.len() == b.len());
        assert(c.len() as int / 2 == nsamp);
        assert forall|i: int| 0 <= i < nsamp implies sample_at(c, i) == norm_sample(
            t,
            m,
            sample_at(b, i),
        ) by {
            let g = norm_sample(t, m, sample_at(b, i)) as i16;
            assert(c[2 * i] == endian::le16_signed_bytes(g)[0]);
            assert(c[2 * i + 1] == endian::le16_signed_bytes(g)[1]);
            endian::lemma_le16_signed_roundtrip(g);
        }
        assert(m > 0) by {
            lemma_peak_attained(b, nsamp);
        }
        assert forall|i: int| 0 <= i < nsamp implies abs_val(sample_at(c, i)) <= t by {
            lemma_peak_bounds(b, nsamp, i);
            lemma_norm_sample_bound(t, m, sample_at(b, i));
        }
        assert forall|n: int| 0 <= n <= nsamp implies peak_upto(c, n) <= t by {
            lemma_peak_le(c, n, t);
        }
        if t == 0 {
            // every rescaled sample is zero, so the second pass sees a
            // silent buffer and leaves it alone
            assert(peak_upto(c, nsamp) <= 0);
            assert(peak_upto(c, nsamp) >= 0) by {
                lemma_peak_nonneg(c, nsamp);
            }
            assert(peak_of(c) == 0);
            assert(normalize_bytes(t, c) == c);
        } else {
            lemma_peak_attained(b, nsamp);
            let iw = choose|i: int|
                0 <= i < nsamp && abs_val(sample_at(b, i)) == peak_upto(b, nsamp);
            lemma_norm_sample_bound(t, m, sample_at(b, iw));
            assert(abs_val(sample_at(c, iw)) == t);
            assert(peak_upto(c, nsamp) >= t) by {
                lemma_peak_bounds(c, nsamp, iw);
            }
            assert(peak_of(c) == t);
            assert forall|i: int| 0 <= i < nsamp implies norm_sample(t, t, sample_at(c, i))
                == sample_at(c, i) by {
                lemma_norm_fixed(t, sample_at(c, i));
            }
            assert forall|i: int| 0 <= i < c.len() implies normalize_bytes(t, c)[i] == c[i] by {
                if i < 2 * nsamp {
                    let j = i / 2;
                    endian::lemma_le16_signed_bytes_inverse(c[2 * j], c[2 * j + 1]);
                }
            }
            assert(normalize_bytes(t, c) =~= c);
        }
    }
}

/// All sample magnitudes at most `t` bound the running peak by `t`.
proof fn lemma_peak_le(b: Seq<u8>, n: int, t: int)
    requires
        t >= 0,
        forall|i: int| 0 <= i < n ==> abs_val(sample_at(b, i)) <= t,
    ensures
        peak_upto(b, n) <= t,
    decreases n,
{
    if n > 0 {
        lemma_peak_le(b, n - 1, t);
    }
}

proof fn lemma_peak_nonneg(b: Seq<u8>, n: int)
    ensures
        peak_upto(b, n) >= 0,
    decreases n,
{
    if n > 0 {
        lemma_peak_nonneg(b, n - 1);
    }
}

impl Transform for Normalize {
    /// Rescales the frame's samples as `normalize_bytes` says; nothing else
    /// of the frame changes.
    #[verifier::loop_isolation(false)]
    fn apply(&mut self, frame: Frame) -> (r: IoResult<Frame>)
        ensures
            *final(self) == *old(self),
            r matches Ok(f) && match frame.data {
                FrameData::Video(_) => f == frame,
                FrameData::Audio(a) => {
                    &&& f.data matches FrameData::Audio(a2) && a2.data@ == normalize_bytes(
                        old(self).target as int,
                        a.data@,
                    ) && a2.sample_rate == a.sample_rate && a2.channels == a.channels
                        && a2.nb_samples == a.nb_samples
                    &&& f.pts == frame.pts && f.timebase == frame.timebase && f.stream_index
                        == frame.stream_index
                },
            },
    {
        match frame.data {
            FrameData::Video(v) => Ok(
                Frame {
                    data: FrameData::Video(v),
                    pts: frame.pts,
                    timebase: frame.timebase,
                    stream_index: frame.stream_index,
                },
            ),
            FrameData::Audio(a) => {
                let mut data = a.data;
                let ghost orig = data@;
                let samples = data.len() / 2;
                let mut max_amp: i32 = 0;
                let mut i: usize = 0;
                while i < samples
                    invariant
                        samples == orig.len() as int / 2,
                        data@ == orig,
                        i <= samples,
                        max_amp == peak_upto(orig, i as int),
                        0 <= max_amp <= 32768,
                    decreases samples - i,
                {
                    let s = get_sample(&data, i);
                    let mag: i32 = if s < 0 {
                        -(s as i32)
                    } else {
                        s as i32
                    };
                    if mag > max_amp {
                        max_amp = mag;
                    }
                    i = i + 1;
                }
                if samples == 0 || max_amp == 0 {
                    proof {
                        assert(normalize_bytes(self.target as int, orig) == orig);
                    }
                    return Ok(
                        Frame {
                            data: FrameData::Audio(
                                FrameAudio {
                                    data,
                                    sample_rate: a.sample_rate,
                                    channels: a.channels,
                                    nb_samples: a.nb_samples,
                                },
                            ),
                            pts: frame.pts,
                            timebase: frame.timebase,
                            stream_index: frame.stream_index,
                        },
                    );
                }
                let mut i: usize = 0;
                while i < samples
                    invariant
                        samples == orig.len() as int / 2,
                        samples > 0,
                        data@.len() == orig.len(),
                        i <= samples,
                        max_amp == peak_of(orig),
                        0 < max_amp <= 32768,
                        forall|j: int|
                            2 * (i as int) <= j < orig.len() ==> data@[j] == orig[j],
                        forall|j: int| #![trigger data@[2 * j]]
                            0 <= j < i ==> seq![data@[2 * j], data@[2 * j + 1]]
                                == endian::le16_signed_bytes(
                                norm_sample(
                                    self.target as int,
                                    max_amp as int,
                                    sample_at(orig, j),
                                ) as i16,
                            ),
                    decreases samples - i,
                {
                    let s = get_sample(&data, i);
                    let scaled = scale_trunc(s as i64, self.target as i64, max_amp as u32);
                    let out = clamp_to_i16(scaled);
                    set_sample(&mut data, i, out);
                    i = i + 1;
                }
                proof {
                    assert forall|ii: int| 0 <= ii < data@.len() implies data@[ii]
                        == normalize_bytes(self.target as int, orig)[ii] by {
                        if ii < 2 * (orig.len() as int / 2) {
                            let j = ii / 2;
                            assert(ii == 2 * j || ii == 2 * j + 1);
                            assert(seq![data@[2 * j], data@[2 * j + 1]]
                                == endian::le16_signed_bytes(
                                norm_sample(
                                    self.target as int,
                                    max_amp as int,
                                    sample_at(orig, j),
                                ) as i16,
                            ));
                        }
                    }
                    assert(data@ =~= normalize_bytes(self.target as int, orig));
                }
                Ok(
                    Frame {
                        data: FrameData::Audio(
                            FrameAudio {
                                data,
                                sample_rate: a.sample_rate,
                                channels: a.channels,
                                nb_samples: a.nb_samples,
                            },
                        ),
                        pts: frame.pts,
                        timebase: frame.timebase,
                        stream_index: frame.stream_index,
                    },
                )
            },
        }
    }

    fn name(&self) -> &'static str {
        "normalize"
    }
}

} // verus!
