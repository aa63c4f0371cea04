use vstd::prelude::*;

use crate::codecs::sample_at;
use crate::io::endian;
use crate::io::error::IoResult;
use crate::model::frame::{Frame, FrameAudio, FrameData};
use crate::model::traits::Transform;
use crate::transform::{get_sample, set_sample};

verus! {

#[derive(Debug, Clone, Copy, PartialEq, Eq, Structural)]
pub enum ChannelLayout {
    Mono,
    Stereo,
}

/// Two channels mixed down to one: the arithmetic mean, rounded half away
/// from zero.
pub open spec fn mix2(l: int, r: int) -> int {
    let sum = l + r;
    if sum >= 0 {
        (sum + 1) / 2
    } else {
        -((1 - sum) / 2)
    }
}

/// A mono buffer fanned out to two identical channels.
pub open spec fn mono_to_stereo_bytes(b: Seq<u8>) -> Seq<u8> {
    Seq::new(
        (4 * (b.len() as int / 2)) as nat,
        |i: int|
            {
                let g = sample_at(b, (i / 2) / 2) as i16;
                if i % 2 == 0 {
                    endian::le16_signed_bytes(g)[0]
                } else {
                    endian::le16_signed_bytes(g)[1]
                }
            },
    )
}

/// A stereo buffer folded to one channel, pair by pair.
pub open spec fn stereo_to_mono_bytes(b: Seq<u8>) -> Seq<u8> {
    Seq::new(
        (2 * ((b.len() as int / 2) / 2)) as nat,
        |i: int|
            {
                let g = mix2(sample_at(b, 2 * (i / 2)), sample_at(b, 2 * (i / 2) + 1)) as i16;
                if i % 2 == 0 {
                    endian::le16_signed_bytes(g)[0]
                } else {
                    endian::le16_signed_bytes(g)[1]
                }
            },
    )
}

/// Rewrites audio frames to the target channel count: stereo is folded to
/// mono by averaging, mono is duplicated to stereo. Frames already in the
/// target layout, other layouts, and video frames pass through unchanged.
pub struct ChannelMixer {
    pub target_layout: ChannelLayout,
}

impl ChannelMixer {
    pub fn new(target_layout: ChannelLayout) -> (r: ChannelMixer)
        ensures
            r.target_layout == target_layout,
    {
        ChannelMixer { target_layout }
    }

    pub fn mono_to_stereo() -> (r: ChannelMixer)
        ensures
            r.target_layout == ChannelLayout::Stereo,
    {
        ChannelMixer::new(ChannelLayout::Stereo)
    }

    pub fn stereo_to_mono() -> (r: ChannelMixer)
        ensures
            r.target_layout == ChannelLayout::Mono,
    {
        ChannelMixer::new(ChannelLayout::Mono)
    }

    #[verifier::loop_isolation(false)]
    fn convert_mono_to_stereo(data: &Vec<u8>) -> (r: Vec<u8>)
        requires
            data@.len() / 2 <= usize::MAX / 4,
        ensures
            r@ == mono_to_stereo_bytes(data@),
    {
        let samples = data.len() / 2;
        let mut out: Vec<u8> = vec![0u8; 4 * samples];
        let ghost olen = out@.len();
        let mut i: usize = 0;
        while i < samples
            invariant
                samples == data@.len() as int / 2,
                out@.len() == 4 * samples,
                i <= samples,
                forall|j: int| #![trigger out@[2 * j]]
                    0 <= j < 2 * i ==> seq![out@[2 * j], out@[2 * j + 1]]
                        == endian::le16_signed_bytes(sample_at(data@, j / 2) as i16),
            decreases samples - i,
        {
            let s = get_sample(data, i);
            set_sample(&mut out, 2 * i, s);
            set_sample(&mut out, 2 * i + 1, s);
            i = i + 1;
        }
        proof {
            assert forall|ii: int| 0 <= ii < out@.len() implies out@[ii] == mono_to_stereo_bytes(
                data@,
            )[ii] by {
                let j = ii / 2;
                assert(ii == 2 * j || ii == 2 * j + 1);
                assert(seq![out@[2 * j], out@[2 * j + 1]] == endian::le16_signed_bytes(
                    sample_at(data@, j / 2) as i16,
                ));
            }
            assert(out@ =~= mono_to_stereo_bytes(data@));
        }
        out
    }

    #[verifier::loop_isolation(false)]
    fn convert_stereo_to_mono(data: &Vec<u8>) -> (r: Vec<u8>)
        ensures
            r@ == stereo_to_mono_bytes(data@),
    {
        let pairs = (data.len() / 2) / 2;
        let mut out: Vec<u8> = vec![0u8; 2 * pairs];
        let mut i: usize = 0;
        while i < pairs
            invariant
                pairs == (data@.len() as int / 2) / 2,
                out@.len() == 2 * pairs,
                i <= pairs,
                forall|j: int| #![trigger out@[2 * j]]
                    0 <= j < i ==> seq![out@[2 * j], out@[2 * j + 1]] == endian::le16_signed_bytes(
                        mix2(sample_at(data@, 2 * j), sample_at(data@, 2 * j + 1)) as i16,
                    ),
            decreases pairs - i,
        {
            let l = get_sample(data, 2 * i);
            let r = get_sample(data, 2 * i + 1);
            let sum: i32 = l as i32 + r as i32;
            let mixed: i16 = if sum >= 0 {
                ((sum + 1) / 2) as i16
            } else {
                (-((1 - sum) / 2)) as i16
            };
            set_sample(&mut out, i, mixed);
            i = i + 1;
        }
        proof {
            assert forall|ii: int| 0 <= ii < out@.len() implies out@[ii] == stereo_to_mono_bytes(
                data@,
            )[ii] by {
                let j = ii / 2;
                assert(ii == 2 * j || ii == 2 * j + 1);
                assert(seq![out@[2 * j], out@[2 * j + 1]] == endian::le16_signed_bytes(
                    mix2(sample_at(data@, 2 * j), sample_at(data@, 2 * j + 1)) as i16,
                ));
            }
            assert(out@ =~= stereo_to_mono_bytes(data@));
        }
        out
    }
}

impl Transform for ChannelMixer {
    /// Remixes the channels as the layout asks; sample rate, timing and
    /// stream identity stay put, and the sample count per channel is kept.
    #[verifier::loop_isolation(false)]
    fn apply(&mut self, frame: Frame) -> (r: IoResult<Frame>)
        ensures
            *final(self) == *old(self),
            r matches Ok(f) && match frame.data {
                FrameData::Video(_) => f == frame,
                FrameData::Audio(a) => {
                    let target: int = match old(self).target_layout {
                        ChannelLayout::Mono => 1,
                        ChannelLayout::Stereo => 2,
                    };
                    if a.data@.len() > usize::MAX / 2 && a.channels != target {
                        f == frame
                    } else {
                    &&& f.pts == frame.pts && f.timebase == frame.timebase && f.stream_index
                        == frame.stream_index
                    &&& f.data matches FrameData::Audio(a2) && a2.sample_rate == a.sample_rate
                        && a2.channels == target && {
                        if a.channels == target {
                            a2.data@ == a.data@ && a2.nb_samples == a.nb_samples
                        } else if a.channels == 1 && target == 2 {
                            a2.data@ == mono_to_stereo_bytes(a.data@) && a2.nb_samples == a2.data@.len() as int / 4
                        } else if a.channels == 2 && target == 1 {
                            a2.data@ == stereo_to_mono_bytes(a.data@) && a2.nb_samples == a2.data@.len() as int / 2
                        } else {
                            a2.data@ == a.data@ && a2.nb_samples == (a2.data@.len() as int / 2)
                                / target
                        }
                    }
                    }
                },
            },
    {
        match frame.data {
            FrameData::Video(v) => Ok(
                Frame {
                    data: FrameData::Video(v),
                    pts: frame.pts,
                    timebase: frame.timebase,
                    stream_index: frame.stream_index,
                },
            ),
            FrameData::Audio(a) => {
                let target: u8 = match self.target_layout {
                    ChannelLayout::Mono => 1,
                    ChannelLayout::Stereo => 2,
                };
                if a.channels == target || a.data.len() > usize::MAX / 2 {
                    return Ok(
                        Frame {
                            data: FrameData::Audio(a),
                            pts: frame.pts,
                            timebase: frame.timebase,
                            stream_index: frame.stream_index,
                        },
                    );
                }
                let (out, nb) = if a.channels == 1 && target == 2 {
                    let o = Self::convert_mono_to_stereo(&a.data);
                    let n = o.len() / 4;
                    (o, n)
                } else if a.channels == 2 && target == 1 {
                    let o = Self::convert_stereo_to_mono(&a.data);
                    let n = o.len() / 2;
                    (o, n)
                } else {
                    let n = (a.data.len() / 2) / target as usize;
                    (a.data, n)
                };
                Ok(
                    Frame {
                        data: FrameData::Audio(
                            FrameAudio {
                                data: out,
                                sample_rate: a.sample_rate,
                                channels: target,
                                nb_samples: nb,
                            },
                        ),
                        pts: frame.pts,
                        timebase: frame.timebase,
                        stream_index: frame.stream_index,
                    },
                )
            },
        }
    }

    fn name(&self) -> &'static str {
        "channel_mixer"
    }
}

} // verus!
