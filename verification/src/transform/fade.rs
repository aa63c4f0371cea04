use vstd::prelude::*;

use crate::io::error::IoResult;
use crate::model::frame::{Frame, FrameAudio, FrameData};
use crate::model::traits::Transform;
use crate::transform::{clamp_to_i16, get_sample, scale_trunc, set_sample};

verus! {

/// Milliseconds at a sample rate, saturating at the address-space bound.
fn ms_to_samples(ms: u32, sample_rate: u32) -> (r: usize)
    ensures
        ms as int * sample_rate as int / 1000 <= usize::MAX ==> r == ms as int * sample_rate as int
            / 1000,
{
    proof {
        vstd::arithmetic::mul::lemma_mul_upper_bound(
            ms as int,
            u32::MAX as int,
            sample_rate as int,
            u32::MAX as int,
        );
    }
    let total: u64 = ms as u64 * sample_rate as u64 / 1000;
    if total > usize::MAX as u64 {
        usize::MAX
    } else {
        total as usize
    }
}

/// Ramps an audio stream in linearly over its first `duration_samples`
/// sample frames; afterwards it passes frames through unchanged.
pub struct FadeIn {
    pub duration_samples: usize,
    pub current_sample: usize,
}

impl FadeIn {
    pub fn new(duration_ms: u32, sample_rate: u32) -> (r: FadeIn)
        ensures
            r.current_sample == 0,
    {
        FadeIn { duration_samples: ms_to_samples(duration_ms, sample_rate), current_sample: 0 }
    }
}

impl Transform for FadeIn {
    /// Scales each sample frame by `position / duration` while inside the
    /// ramp. Once the ramp is done the data passes through untouched; the
    /// cursor always advances by the frame's sample count.
    #[verifier::loop_isolation(false)]
    fn apply(&mut self, frame: Frame) -> (r: IoResult<Frame>)
        ensures
            final(self).duration_samples == old(self).duration_samples,
            r matches Ok(f) && match frame.data {
                FrameData::Video(_) => f == frame && *final(self) == *old(self),
                FrameData::Audio(a) => {
                    &&& f.pts == frame.pts && f.timebase == frame.timebase && f.stream_index
                        == frame.stream_index
                    &&& f.data matches FrameData::Audio(a2) && a2.sample_rate == a.sample_rate
                        && a2.channels == a.channels && a2.nb_samples == a.nb_samples
                        && a2.data@.len() == a.data@.len() && (old(self).current_sample >= old(self).duration_samples ==> a2.data@ == a.data@)
                    &&& (old(self).current_sample + a.nb_samples <= usize::MAX ==> final(self).current_sample == old(self).current_sample + a.nb_samples)
                },
            },
    {
        match frame.data {
            FrameData::Video(v) => Ok(
                Frame {
                    data: FrameData::Video(v),
                    pts: frame.pts,
                    timebase: frame.timebase,
                    stream_index: frame.stream_index,
                },
            ),
            FrameData::Audio(a) => {
                let mut data = a.data;
                let channels = a.channels as usize;
                let nb = a.nb_samples;
                let mut i: usize = 0;
                while i < nb && self.current_sample < self.duration_samples && channels > 0
                    invariant
                        data@.len() == a.data@.len(),
                        self.duration_samples == old(self).duration_samples,
                        old(self).current_sample >= old(self).duration_samples ==> data@
                            == a.data@ && self.current_sample == old(self).current_sample,
                        i <= nb,
                        self.current_sample == old(self).current_sample + i,
                    decreases nb - i,
                {
                    let mut ch: usize = 0;
                    while ch < channels
                        invariant
                            data@.len() == a.data@.len(),
                            ch <= channels,
                            self.current_sample < self.duration_samples,
                            self == old(self) || self.current_sample >= old(self).current_sample,
                        decreases channels - ch,
                    {
                        let kopt: Option<usize> = match i.checked_mul(channels) {
                            Some(b) => b.checked_add(ch),
                            None => None,
                        };
                        if let Some(k) = kopt {
                            if k < data.len() / 2 {
                                let s = get_sample(&data, k);
                                let pos32: u32 = if self.current_sample as u64 > u32::MAX as u64 {
                                    u32::MAX
                                } else {
                                    self.current_sample as u32
                                };
                                let dur32: u32 = if self.duration_samples as u64
                                    > u32::MAX as u64 {
                                    u32::MAX
                                } else {
                                    self.duration_samples as u32
                                };
                                let scaled = scale_trunc(s as i64, pos32 as i64, if dur32 == 0 {
                                    1
                                } else {
                                    dur32
                                });
                                let out = clamp_to_i16(scaled);
                                set_sample(&mut data, k, out);
                            }
                        }
                        ch = ch + 1;
                    }
                    self.current_sample = self.current_sample + 1;
                    i = i + 1;
                }
                self.current_sample = match self.current_sample.checked_add(nb - i) {
                    Some(v) => v,
                    None => usize::MAX,
                };
                Ok(
                    Frame {
                        data: FrameData::Audio(
                            FrameAudio {
                                data,
                                sample_rate: a.sample_rate,
                                channels: a.channels,
                                nb_samples: a.nb_samples,
                            },
                        ),
                        pts: frame.pts,
                        timebase: frame.timebase,
                        stream_index: frame.stream_index,
                    },
                )
            },
        }
    }

    fn name(&self) -> &'static str {
        "fade_in"
    }
}

/// Ramps an audio stream out linearly over the last `duration_samples` of
/// the `total_samples` it expects to see.
pub struct FadeOut {
    pub duration_samples: usize,
    pub total_samples: usize,
    pub current_sample: usize,
}

impl FadeOut {
    pub fn new(duration_ms: u32, total_duration_ms: u32, sample_rate: u32) -> (r: FadeOut)
        ensures
            r.current_sample == 0,
    {
        FadeOut {
            duration_samples: ms_to_samples(duration_ms, sample_rate),
            total_samples: ms_to_samples(total_duration_ms, sample_rate),
            current_sample: 0,
        }
    }

    pub fn from_sample_count(duration_samples: usize, total_samples: usize) -> (r: FadeOut)
        ensures
            r.duration_samples == duration_samples,
            r.total_samples == total_samples,
            r.current_sample == 0,
    {
        FadeOut { duration_samples, total_samples, current_sample: 0 }
    }
}

impl Transform for FadeOut {
    /// Scales each sample frame past the fade start by the remaining share
    /// of the ramp; before the ramp the data passes through untouched. The
    /// cursor always advances by the frame's sample count.
    #[verifier::loop_isolation(false)]
    fn apply(&mut self, frame: Frame) -> (r: IoResult<Frame>)
        ensures
            final(self).duration_samples == old(self).duration_samples,
            final(self).total_samples == old(self).total_samples,
            r matches Ok(f) && match frame.data {
                FrameData::Video(_) => f == frame && *final(self) == *old(self),
                FrameData::Audio(a) => {
                    &&& f.pts == frame.pts && f.timebase == frame.timebase && f.stream_index
                        == frame.stream_index
                    &&& f.data matches FrameData::Audio(a2) && a2.sample_rate == a.sample_rate
                        && a2.channels == a.channels && a2.nb_samples == a.nb_samples
                        && a2.data@.len() == a.data@.len()
                    &&& (old(self).current_sample + a.nb_samples <= usize::MAX ==> final(self).current_sample == old(self).current_sample + a.nb_samples)
                },
            },
    {
        match frame.data {
            FrameData::Video(v) => Ok(
                Frame {
                    data: FrameData::Video(v),
                    pts: frame.pts,
                    timebase: frame.timebase,
                    stream_index: frame.stream_index,
                },
            ),
            FrameData::Audio(a) => {
                let mut data = a.data;
                let channels = a.channels as usize;
                let nb = a.nb_samples;
                let start_cursor = self.current_sample;
                let fade_start = if self.total_samples >= self.duration_samples {
                    self.total_samples - self.duration_samples
                } else {
                    0
                };
                let mut i: usize = 0;
                while i < nb && channels > 0
                    invariant
                        data@.len() == a.data@.len(),
                        self.duration_samples == old(self).duration_samples,
                        self.total_samples == old(self).total_samples,
                        i <= nb,
                        self.current_sample <= old(self).current_sample + i,
                        old(self).current_sample <= self.current_sample,
                    decreases nb - i,
                {
                    if self.current_sample >= fade_start && self.duration_samples > 0 {
                        let fade_pos = self.current_sample - fade_start;
                        let remaining: u64 = if fade_pos as u64 >= self.duration_samples as u64 {
                            0
                        } else {
                            self.duration_samples as u64 - fade_pos as u64
                        };
                        let num: i64 = if remaining > 0x1_0000_0000u64 {
                            0x1_0000_0000i64
                        } else {
                            remaining as i64
                        };
                        let mut ch: usize = 0;
                        while ch < channels
                            invariant
                                data@.len() == a.data@.len(),
                                ch <= channels,
                                self.duration_samples > 0,
                                self.duration_samples == old(self).duration_samples,
                                -0x1_0000_0000 <= num <= 0x1_0000_0000,
                            decreases channels - ch,
                        {
                            let kopt: Option<usize> = match i.checked_mul(channels) {
                                Some(b) => b.checked_add(ch),
                                None => None,
                            };
                            if let Some(k) = kopt {
                                if k < data.len() / 2 {
                                    let s = get_sample(&data, k);
                                    let dur: u32 = if self.duration_samples as u64
                                        > u32::MAX as u64 {
                                        u32::MAX
                                    } else {
                                        self.duration_samples as u32
                                    };
                                    let scaled = scale_trunc(s as i64, num, if dur == 0 {
                                        1
                                    } else {
                                        dur
                                    });
                                    let out = clamp_to_i16(scaled);
                                    set_sample(&mut data, k, out);
                                }
                            }
                            ch = ch + 1;
                        }
                    }
                    if self.current_sample < usize::MAX {
                        self.current_sample = self.current_sample + 1;
                    }
                    i = i + 1;
                }
                self.current_sample = match start_cursor.checked_add(nb) {
                    Some(v) => v,
                    None => usize::MAX,
                };
                Ok(
                    Frame {
                        data: FrameData::Audio(
                            FrameAudio {
                                data,
                                sample_rate: a.sample_rate,
                                channels: a.channels,
                                nb_samples: a.nb_samples,
                            },
                        ),
                        pts: frame.pts,
                        timebase: frame.timebase,
                        stream_index: frame.stream_index,
                    },
                )
            },
        }
    }

    fn name(&self) -> &'static str {
        "fade_out"
    }
}

/// Mixes the head of each incoming frame against the stored tail of the
/// previous stream while a crossfade is active.
pub struct Crossfade {
    pub duration_samples: usize,
    pub current_sample: usize,
    pub crossfade_buffer: Vec<i16>,
    pub buffer_pos: usize,
    pub in_crossfade: bool,
}

impl Crossfade {
    pub fn new(duration_ms: u32, sample_rate: u32, channels: u8) -> (r: Crossfade)
        ensures
            r.current_sample == 0,
            r.buffer_pos == 0,
            !r.in_crossfade,
    {
        let duration_samples = ms_to_samples(duration_ms, sample_rate);
        let buffer_size: usize = match duration_samples.checked_mul(channels as usize) {
            Some(v) => v,
            None => usize::MAX,
        };
        Crossfade {
            duration_samples,
            current_sample: 0,
            crossfade_buffer: vec![0i16; buffer_size],
            buffer_pos: 0,
            in_crossfade: false,
        }
    }

    pub fn start_crossfade(&mut self)
        ensures
            final(self).in_crossfade,
            final(self).buffer_pos == 0,
            final(self).duration_samples == old(self).duration_samples,
            final(self).current_sample == old(self).current_sample,
            final(self).crossfade_buffer == old(self).crossfade_buffer,
    {
        self.in_crossfade = true;
        self.buffer_pos = 0;
    }

    /// Stores the tail of the previous stream's frame so the next stream
    /// can be mixed in against it.
    #[verifier::loop_isolation(false)]
    pub fn feed_previous(&mut self, frame: &Frame)
        ensures
            final(self).duration_samples == old(self).duration_samples,
            final(self).in_crossfade == old(self).in_crossfade,
            final(self).buffer_pos == old(self).buffer_pos,
            final(self).current_sample == old(self).current_sample,
            final(self).crossfade_buffer@.len() == old(self).crossfade_buffer@.len(),
    {
        match &frame.data {
            FrameData::Video(_) => (),
            FrameData::Audio(a) => {
                let channels = a.channels as usize;
                let total = a.data.len() / 2;
                let ghost blen = self.crossfade_buffer@.len();
                let window: usize = match self.duration_samples.checked_mul(channels) {
                    Some(v) => v,
                    None => usize::MAX,
                };
                let start = if total >= window {
                    total - window
                } else {
                    0
                };
                let mut i: usize = 0;
                while start + i < total
                    invariant
                        self.crossfade_buffer@.len() == blen,
                        self.duration_samples == old(self).duration_samples,
                        self.in_crossfade == old(self).in_crossfade,
                        self.buffer_pos == old(self).buffer_pos,
                        self.current_sample == old(self).current_sample,
                        total == a.data@.len() as int / 2,
                        start + i <= total,
                    decreases total - start - i,
                {
                    let k = start + i;
                    if self.buffer_pos <= usize::MAX - i && self.buffer_pos + i
                        < self.crossfade_buffer.len() && 2 * k + 1 < a.data.len() {
                        let s = get_sample(&a.data, k);
                        let pos = self.buffer_pos + i;
                        self.crossfade_buffer.set(pos, s);
                    }
                    i = i + 1;
                }
            },
        }
    }
}

impl Transform for Crossfade {
    /// Outside a crossfade the frame passes through unchanged; inside one,
    /// the stored tail is mixed in with complementary linear weights over
    /// the configured window.
    #[verifier::loop_isolation(false)]
    fn apply(&mut self, frame: Frame) -> (r: IoResult<Frame>)
        ensures
            final(self).duration_samples == old(self).duration_samples,
            r matches Ok(f) && (!old(self).in_crossfade ==> f == frame && *final(self) == *old(self)),
            r matches Ok(f) && match frame.data {
                FrameData::Video(_) => f == frame,
                FrameData::Audio(a) => {
                    &&& f.pts == frame.pts && f.timebase == frame.timebase && f.stream_index
                        == frame.stream_index
                    &&& f.data matches FrameData::Audio(a2) && a2.sample_rate == a.sample_rate
                        && a2.channels == a.channels && a2.nb_samples == a.nb_samples
                        && a2.data@.len() == a.data@.len()
                },
            },
    {
        if !self.in_crossfade {
            return Ok(frame);
        }
        match frame.data {
            FrameData::Video(v) => Ok(
                Frame {
                    data: FrameData::Video(v),
                    pts: frame.pts,
                    timebase: frame.timebase,
                    stream_index: frame.stream_index,
                },
            ),
            FrameData::Audio(a) => {
                let mut data = a.data;
                let channels = a.channels as usize;
                let nb = a.nb_samples;
                let mut i: usize = 0;
                while i < nb && channels > 0
                    invariant
                        data@.len() == a.data@.len(),
                        self.duration_samples == old(self).duration_samples,
                        self.crossfade_buffer@.len() == old(self).crossfade_buffer@.len(),
                        i <= nb,
                    decreases nb - i,
                {
                    if self.current_sample >= self.duration_samples {
                        self.in_crossfade = false;
                        break ;
                    }
                    let fade_pos = self.current_sample;
                    let dur: u32 = if self.duration_samples as u64 > u32::MAX as u64 {
                        u32::MAX
                    } else {
                        self.duration_samples as u32
                    };
                    let pos32: u32 = if fade_pos as u64 > dur as u64 {
                        dur
                    } else {
                        fade_pos as u32
                    };
                    let mut ch: usize = 0;
                    while ch < channels
                        invariant
                            data@.len() == a.data@.len(),
                            self.duration_samples == old(self).duration_samples,
                            self.crossfade_buffer@.len() == old(self).crossfade_buffer@.len(),
                            ch <= channels,
                            self.duration_samples > 0 || dur >= 1,
                            dur >= 1 || self.current_sample < self.duration_samples,
                            pos32 <= dur,
                            self.current_sample < self.duration_samples,
                        decreases channels - ch,
                    {
                        let kopt: Option<usize> = match i.checked_mul(channels) {
                            Some(b) => b.checked_add(ch),
                            None => None,
                        };
                        let k: usize = match kopt {
                            Some(v) => v,
                            None => usize::MAX,
                        };
                        if k < data.len() / 2 && dur > 0 {
                            let new_s = get_sample(&data, k);
                            let bidx: Option<usize> = match self.current_sample.checked_mul(
                                channels,
                            ) {
                                Some(b) => b.checked_add(ch),
                                None => None,
                            };
                            let old_s: i16 = match bidx {
                                Some(x) => {
                                    if x < self.crossfade_buffer.len() {
                                        self.crossfade_buffer[x]
                                    } else {
                                        0
                                    }
                                },
                                None => 0,
                            };
                            proof {
                                assert(old_s as int * (dur - pos32) as int
                                    <= 32768 * 0x1_0000_0000 && old_s as int * (dur - pos32) as int
                                    >= -32768 * 0x1_0000_0000) by (nonlinear_arith)
                                    requires
                                        -32768 <= old_s <= 32767 && 0 <= dur - pos32
                                            <= 0x1_0000_0000,
                                ;
                                assert(new_s as int * pos32 as int <= 32768 * 0x1_0000_0000
                                    && new_s as int * pos32 as int >= -32768 * 0x1_0000_0000)
                                    by (nonlinear_arith)
                                    requires
                                        -32768 <= new_s <= 32767 && 0 <= pos32 <= 0x1_0000_0000,
                                ;
                            }
                            let mixed_num: i64 = old_s as i64 * (dur - pos32) as i64 + new_s as i64
                                * pos32 as i64;
                            let mixed: i64 = if mixed_num >= 0 {
                                (mixed_num as u64 / dur as u64) as i64
                            } else {
                                -(((-mixed_num) as u64 / dur as u64) as i64)
                            };
                            proof {
                                if mixed_num >= 0 {
                                    vstd::arithmetic::div_mod::lemma_div_is_ordered_by_denominator(
                                        mixed_num as int,
                                        1,
                                        dur as int,
                                    );
                                } else {
                                    vstd::arithmetic::div_mod::lemma_div_is_ordered_by_denominator(
                                        -mixed_num as int,
                                        1,
                                        dur as int,
                                    );
                                }
                            }
                            let out = clamp_to_i16(mixed);
                            set_sample(&mut data, k, out);
                        }
                        ch = ch + 1;
                    }
                    self.current_sample = self.current_sample + 1;
                    i = i + 1;
                }
                Ok(
                    Frame {
                        data: FrameData::Audio(
                            FrameAudio {
                                data,
                                sample_rate: a.sample_rate,
                                channels: a.channels,
                                nb_samples: a.nb_samples,
                            },
                        ),
                        pts: frame.pts,
                        timebase: frame.timebase,
                        stream_index: frame.stream_index,
                    },
                )
            },
        }
    }

    fn name(&self) -> &'static str {
        "crossfade"
    }
}

} // verus!
