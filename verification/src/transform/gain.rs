use vstd::prelude::*;

use crate::codecs::sample_at;
use crate::io::endian;
use crate::io::error::IoResult;
use crate::model::frame::{Frame, FrameData};
use crate::model::traits::Transform;
use crate::transform::{clamp_sample, clamp_to_i16, get_sample, scale_trunc, set_sample, tdiv};

verus! {

/// One sample scaled by `num/den`, truncated toward zero, clamped to
/// 16-bit range. A zero denominator leaves the sample alone.
pub open spec fn gain_sample(num: int, den: int, s: int) -> int {
    if den == 0 {
        s
    } else {
        clamp_sample(tdiv(s * num, den))
    }
}

/// The whole buffer scaled sample by sample; a trailing odd byte is kept,
/// and a zero denominator leaves the buffer alone.
pub open spec fn gain_bytes(num: int, den: int, b: Seq<u8>) -> Seq<u8> {
    if den == 0 {
        b
    } else {
    Seq::new(
        b.len(),
        |i: int|
            if i < 2 * (b.len() as int / 2) {
                let g = gain_sample(num, den, sample_at(b, i / 2)) as i16;
                if i % 2 == 0 {
                    endian::le16_signed_bytes(g)[0]
                } else {
                    endian::le16_signed_bytes(g)[1]
                }
            } else {
                b[i]
            },
    )
    }
}

/// Multiplies every sample of an audio frame by the rational factor
/// `num / den`, saturating at the 16-bit bounds. Video frames pass through
/// unchanged.
pub struct Gain {
    pub num: i32,
    pub den: u32,
}

impl Gain {
    pub fn new(num: i32, den: u32) -> (r: Gain)
        ensures
            r.num == num,
            r.den == den,
    {
        Gain { num, den }
    }
}

impl Transform for Gain {
    /// Every sample is scaled as `gain_sample` says; nothing else of the
    /// frame changes.
    #[verifier::loop_isolation(false)]
    fn apply(&mut self, frame: Frame) -> (r: IoResult<Frame>)
        ensures
            *final(self) == *old(self),
            r matches Ok(f) && match frame.data {
                FrameData::Video(_) => f == frame,
                FrameData::Audio(a) => {
                    &&& f.data matches FrameData::Audio(a2) && a2.data@ == gain_bytes(
                        old(self).num as int,
                        old(self).den as int,
                        a.data@,
                    ) && a2.sample_rate == a.sample_rate && a2.channels == a.channels
                        && a2.nb_samples == a.nb_samples
                    &&& f.pts == frame.pts && f.timebase == frame.timebase && f.stream_index
                        == frame.stream_index
                },
            },
    {
        match frame.data {
            FrameData::Video(v) => Ok(
                Frame {
                    data: FrameData::Video(v),
                    pts: frame.pts,
                    timebase: frame.timebase,
                    stream_index: frame.stream_index,
                },
            ),
            FrameData::Audio(a) => {
                let mut data = a.data;
                if self.den == 0 {
                    proof {
                        assert(data@ =~= gain_bytes(self.num as int, self.den as int, data@));
                    }
                    return Ok(
                        Frame {
                            data: FrameData::Audio(
                                crate::model::frame::FrameAudio {
                                    data,
                                    sample_rate: a.sample_rate,
                                    channels: a.channels,
                                    nb_samples: a.nb_samples,
                                },
                            ),
                            pts: frame.pts,
                            timebase: frame.timebase,
                            stream_index: frame.stream_index,
                        },
                    );
                }
                let ghost orig = data@;
                let samples = data.len() / 2;
                let mut i: usize = 0;
                while i < samples
                    invariant
                        samples == orig.len() as int / 2,
                        data@.len() == orig.len(),
                        i <= samples,
                        self.den != 0,
                        forall|j: int|
                            2 * (i as int) <= j < orig.len() ==> data@[j] == orig[j],
                        forall|j: int| #![trigger data@[2 * j]]
                            0 <= j < i ==> seq![data@[2 * j], data@[2 * j + 1]]
                                == endian::le16_signed_bytes(
                                gain_sample(self.num as int, self.den as int, sample_at(orig, j))
                                    as i16,
                            ),
                    decreases samples - i,
                {
                    let s = get_sample(&data, i);
                    let scaled = scale_trunc(s as i64, self.num as i64, self.den);
                    let out = clamp_to_i16(scaled);
                    set_sample(&mut data, i, out);
                    i = i + 1;
                }
                proof {
                    assert forall|ii: int| 0 <= ii < data@.len() implies data@[ii] == gain_bytes(
                        self.num as int,
                        self.den as int,
                        orig,
                    )[ii] by {
                        if ii < 2 * (orig.len() as int / 2) {
                            let j = ii / 2;
                            assert(ii == 2 * j || ii == 2 * j + 1);
                            assert(seq![data@[2 * j], data@[2 * j + 1]]
                                == endian::le16_signed_bytes(
                                gain_sample(self.num as int, self.den as int, sample_at(orig, j))
                                    as i16,
                            ));
                        }
                    }
                    assert(data@ =~= gain_bytes(self.num as int, self.den as int, orig));
                }
                Ok(
                    Frame {
                        data: FrameData::Audio(
                            crate::model::frame::FrameAudio {
                                data,
                                sample_rate: a.sample_rate,
                                channels: a.channels,
                                nb_samples: a.nb_samples,
                            },
                        ),
                        pts: frame.pts,
                        timebase: frame.timebase,
                        stream_index: frame.stream_index,
                    },
                )
            },
        }
    }

    fn name(&self) -> &'static str {
        "gain"
    }
}

/// A unit gain is the identity on audio data: scaling by `k / k` hands
/// every byte back unchanged.
pub proof fn lemma_gain_identity(k: int, b: Seq<u8>)
    requires
        k > 0,
    ensures
        gain_bytes(k, k, b) == b,
{
    assert forall|i: int| 0 <= i < b.len() implies gain_bytes(k, k, b)[i] == b[i] by {
        if i < 2 * (b.len() as int / 2) {
            let j = i / 2;
            let s = sample_at(b, j);
            assert(-32768 <= s <= 32767);
            if s >= 0 {
                vstd::arithmetic::div_mod::lemma_div_multiples_vanish(s, k);
                assert(s * k == k * s) by (nonlinear_arith);
            } else {
                vstd::arithmetic::div_mod::lemma_div_multiples_vanish(-s, k);
                assert(s * k < 0 && -(s * k) == k * (-s)) by (nonlinear_arith)
                    requires
                        s < 0 && k > 0,
                ;
            }
            assert(gain_sample(k, k, s) == s);
            endian::lemma_le16_signed_bytes_inverse(b[2 * j], b[2 * j + 1]);
            assert(gain_bytes(k, k, b)[i] == b[i]);
        }
    }
    assert(gain_bytes(k, k, b) =~= b);
}

} // verus!
