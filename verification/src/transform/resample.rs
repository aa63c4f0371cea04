use vstd::prelude::*;

use crate::io::error::IoResult;
use crate::model::frame::{Frame, FrameAudio, FrameData};
use crate::model::time::Timebase;
use crate::model::traits::Transform;
use crate::transform::{clamp_to_i16, get_sample, set_sample};

verus! {

/// The presentation timestamp rescaled to a new rate, rounded half away
/// from zero.
pub open spec fn resample_pts(pts: int, dst: int, src: int) -> int
    recommends
        src > 0,
{
    if pts >= 0 {
        (pts * dst + src / 2) / src
    } else {
        -(((-pts) * dst + src / 2) / src)
    }
}

/// Output samples per channel: one for every started step of the rate
/// ratio, partial tail samples trimmed.
pub open spec fn resample_out_len(len: int, dst: int, src: int) -> int
    recommends
        src > 0,
{
    (len * dst + src - 1) / src
}

/// A linear-interpolation resampler: rewrites each audio frame to the
/// target rate, scales its timestamp, and renews the timebase. Frames
/// already at the target rate, degenerate rates, and video frames pass
/// through unchanged.
pub struct Resample {
    pub target_rate: u32,
}

impl Resample {
    pub fn new(target_rate: u32) -> (r: Resample)
        ensures
            r.target_rate == target_rate,
    {
        Resample { target_rate }
    }

    pub fn to_48k() -> (r: Resample)
        ensures
            r.target_rate == 48000,
    {
        Resample::new(48000)
    }

    pub fn to_96k() -> (r: Resample)
        ensures
            r.target_rate == 96000,
    {
        Resample::new(96000)
    }

    pub fn to_44k() -> (r: Resample)
        ensures
            r.target_rate == 44100,
    {
        Resample::new(44100)
    }
}

impl Transform for Resample {
    /// The sample count per channel, the timestamp, and the timebase move
    /// to the target rate exactly as the formulas above say; sample values
    /// are interpolated linearly between neighbours.
    #[verifier::loop_isolation(false)]
    fn apply(&mut self, frame: Frame) -> (r: IoResult<Frame>)
        ensures
            *final(self) == *old(self),
            r matches Ok(f) && match frame.data {
                FrameData::Video(_) => f == frame,
                FrameData::Audio(a) => {
                    let dst = old(self).target_rate as int;
                    let src = a.sample_rate as int;
                    let out_len = resample_out_len(a.nb_samples as int, dst, src);
                    if src == dst || src == 0 || dst == 0 || a.channels == 0 {
                        f == frame
                    } else if out_len <= usize::MAX / 4 && out_len * a.channels * 2
                        <= usize::MAX {
                        &&& f.data matches FrameData::Audio(a2) && a2.sample_rate == old(self).target_rate && a2.channels == a.channels && a2.nb_samples == out_len
                            && a2.data@.len() == out_len * a.channels * 2
                        &&& -(i64::MAX as int) <= resample_pts(frame.pts as int, dst, src)
                            <= i64::MAX ==> f.pts == resample_pts(frame.pts as int, dst, src)
                        &&& f.timebase == (Timebase { num: 1, den: old(self).target_rate })
                        &&& f.stream_index == frame.stream_index
                    } else {
                        // a frame too large to address keeps its data
                        f == frame
                    }
                },
            },
    {
        match frame.data {
            FrameData::Video(v) => Ok(
                Frame {
                    data: FrameData::Video(v),
                    pts: frame.pts,
                    timebase: frame.timebase,
                    stream_index: frame.stream_index,
                },
            ),
            FrameData::Audio(a) => {
                let src = a.sample_rate;
                let dst = self.target_rate;
                let channels = a.channels as usize;
                if src == dst || src == 0 || dst == 0 || channels == 0 {
                    return Ok(
                        Frame {
                            data: FrameData::Audio(a),
                            pts: frame.pts,
                            timebase: frame.timebase,
                            stream_index: frame.stream_index,
                        },
                    );
                }
                let nb = a.nb_samples;
                proof {
                    vstd::arithmetic::mul::lemma_mul_upper_bound(
                        nb as int,
                        usize::MAX as int,
                        dst as int,
                        u32::MAX as int,
                    );
                }
                let out_per_channel_128: u128 = (nb as u128 * dst as u128 + src as u128 - 1)
                    / src as u128;
                if out_per_channel_128 > (usize::MAX / 4) as u128 {
                    return Ok(
                        Frame {
                            data: FrameData::Audio(a),
                            pts: frame.pts,
                            timebase: frame.timebase,
                            stream_index: frame.stream_index,
                        },
                    );
                }
                let out_per_channel: usize = out_per_channel_128 as usize;
                let total_samples: usize = match out_per_channel.checked_mul(channels) {
                    Some(v) => v,
                    None => {
                        return Ok(
                            Frame {
                                data: FrameData::Audio(a),
                                pts: frame.pts,
                                timebase: frame.timebase,
                                stream_index: frame.stream_index,
                            },
                        );
                    },
                };
                let total_bytes: usize = match total_samples.checked_mul(2) {
                    Some(v) => v,
                    None => {
                        return Ok(
                            Frame {
                                data: FrameData::Audio(a),
                                pts: frame.pts,
                                timebase: frame.timebase,
                                stream_index: frame.stream_index,
                            },
                        );
                    },
                };
                let mut out: Vec<u8> = vec![0u8; total_bytes];
                let mut i: usize = 0;
                while i < out_per_channel
                    invariant
                        out@.len() == total_bytes,
                        total_bytes == total_samples * 2,
                        total_samples == out_per_channel * channels,
                        i <= out_per_channel,
                        channels == a.channels as int,
                        channels > 0,
                        src > 0 && dst > 0,
                    decreases out_per_channel - i,
                {
                    proof {
                        vstd::arithmetic::mul::lemma_mul_upper_bound(
                            i as int,
                            usize::MAX as int,
                            src as int,
                            u32::MAX as int,
                        );
                    }
                    let step: u128 = i as u128 * src as u128;
                    let idx128: u128 = step / dst as u128;
                    let rem128: u128 = step % dst as u128;
                    let idx: usize = if idx128 > usize::MAX as u128 {
                        usize::MAX
                    } else {
                        idx128 as usize
                    };
                    let rem: u32 = rem128 as u32;
                    proof {
                        vstd::arithmetic::div_mod::lemma_mod_bound(step as int, dst as int);
                    }
                    let mut ch: usize = 0;
                    while ch < channels
                        invariant
                            out@.len() == total_bytes,
                            total_bytes == total_samples * 2,
                            total_samples == out_per_channel * channels,
                            i < out_per_channel,
                            ch <= channels,
                            rem < dst,
                            dst > 0,
                        decreases channels - ch,
                    {
                        let k_in0: Option<usize> = match idx.checked_mul(channels) {
                            Some(b) => b.checked_add(ch),
                            None => None,
                        };
                        let s0: i16 = match k_in0 {
                            Some(x) => {
                                if x < a.data.len() / 2 {
                                    get_sample(&a.data, x)
                                } else {
                                    0
                                }
                            },
                            None => 0,
                        };
                        let k_in1: Option<usize> = match idx.checked_add(1) {
                            Some(n) => match n.checked_mul(channels) {
                                Some(b) => b.checked_add(ch),
                                None => None,
                            },
                            None => None,
                        };
                        let s1: i16 = match k_in1 {
                            Some(x) => {
                                if x < a.data.len() / 2 {
                                    get_sample(&a.data, x)
                                } else {
                                    s0
                                }
                            },
                            None => s0,
                        };
                        proof {
                            assert(s0 as int * (dst - rem) as int <= 32768 * 0x1_0000_0000
                                && s0 as int * (dst - rem) as int >= -32768 * 0x1_0000_0000)
                                by (nonlinear_arith)
                                requires
                                    -32768 <= s0 <= 32767 && 0 <= dst - rem <= 0x1_0000_0000,
                            ;
                            assert(s1 as int * rem as int <= 32768 * 0x1_0000_0000 && s1 as int
                                * rem as int >= -32768 * 0x1_0000_0000) by (nonlinear_arith)
                                requires
                                    -32768 <= s1 <= 32767 && 0 <= rem <= 0x1_0000_0000,
                            ;
                        }
                        let num: i64 = s0 as i64 * (dst - rem) as i64 + s1 as i64 * rem as i64;
                        let q: i64 = if num >= 0 {
                            (num as u64 / dst as u64) as i64
                        } else {
                            -(((-num) as u64 / dst as u64) as i64)
                        };
                        proof {
                            if num >= 0 {
                                vstd::arithmetic::div_mod::lemma_div_is_ordered_by_denominator(
                                    num as int,
                                    1,
                                    dst as int,
                                );
                            } else {
                                vstd::arithmetic::div_mod::lemma_div_is_ordered_by_denominator(
                                    -num as int,
                                    1,
                                    dst as int,
                                );
                            }
                        }
                        let val = clamp_to_i16(q);
                        proof {
                            assert(i * channels + ch < out_per_channel * channels)
                                by (nonlinear_arith)
                                requires
                                    i < out_per_channel && ch < channels && channels > 0 && i >= 0
                                        && ch >= 0 && out_per_channel >= 0,
                            ;
                        }
                        let k_out = i * channels + ch;
                        set_sample(&mut out, k_out, val);
                        ch = ch + 1;
                    }
                    i = i + 1;
                }
                let new_pts: i64 = {
                    let p = frame.pts;
                    if p >= 0 {
                        proof {
                            assert(p as int * dst as int <= 0x8000_0000_0000_0000 * 0x1_0000_0000)
                                by (nonlinear_arith)
                                requires
                                    0 <= p <= 0x8000_0000_0000_0000 && 0 <= dst <= 0x1_0000_0000,
                            ;
                            vstd::arithmetic::mul::lemma_mul_nonnegative(p as int, dst as int);
                        }
                        let scaled: i128 = (p as i128 * dst as i128 + (src / 2) as i128)
                            / src as i128;
                        if scaled > i64::MAX as i128 {
                            i64::MAX
                        } else {
                            scaled as i64
                        }
                    } else {
                        proof {
                            assert((-(p as int)) * dst as int <= 0x8000_0000_0000_0000
                                * 0x1_0000_0000 && (-(p as int)) * dst as int >= 0)
                                by (nonlinear_arith)
                                requires
                                    0 <= -(p as int) <= 0x8000_0000_0000_0000 && 0 <= dst
                                        <= 0x1_0000_0000,
                            ;
                        }
                        let scaled: i128 = ((-(p as i128)) * dst as i128 + (src / 2) as i128)
                            / src as i128;
                        if scaled > i64::MAX as i128 {
                            i64::MIN
                        } else {
                            -(scaled as i64)
                        }
                    }
                };
                Ok(
                    Frame {
                        data: FrameData::Audio(
                            FrameAudio {
                                data: out,
                                sample_rate: dst,
                                channels: a.channels,
                                nb_samples: out_per_channel,
                            },
                        ),
                        pts: new_pts,
                        timebase: Timebase::new(1, dst),
                        stream_index: frame.stream_index,
                    },
                )
            },
        }
    }

    fn name(&self) -> &'static str {
        "resample"
    }
}

} // verus!
