use vstd::prelude::*;

use crate::codecs::adpcm::AdpcmState;
use crate::io::error::IoResult;
use crate::model::frame::{Frame, FrameData};
use crate::model::packet::Packet;
use crate::model::time::Timebase;
use crate::model::traits::Encoder;
use crate::transform::get_sample;

verus! {

/// Per-channel predictor state; two samples fold into one output byte,
/// the first in the low nibble.
pub struct AdpcmEncoder {
    pub timebase: Timebase,
    pub channels: usize,
    pub states: Vec<AdpcmState>,
}

impl AdpcmEncoder {
    pub fn new(timebase: Timebase, channels: u8) -> (r: AdpcmEncoder)
        ensures
            r.timebase == timebase,
            r.channels == channels,
            r.states@.len() == channels,
    {
        let mut states: Vec<AdpcmState> = Vec::new();
        let mut i: u8 = 0;
        while i < channels
            invariant
                i <= channels,
                states@.len() == i,
            decreases channels - i,
        {
            states.push(AdpcmState::new());
            i = i + 1;
        }
        AdpcmEncoder { timebase, channels: channels as usize, states }
    }
}

impl Encoder for AdpcmEncoder {
    /// Folds each pair of samples into one byte; the output length and the
    /// packet position are exact, and the nibbles follow each channel
    /// state's search.
    #[verifier::loop_isolation(false)]
    fn encode(&mut self, frame: Frame) -> (r: IoResult<Option<Packet>>)
        ensures
            final(self).timebase == old(self).timebase,
            final(self).channels == old(self).channels,
            final(self).states@.len() == old(self).states@.len(),
            r matches Ok(p) && p matches Some(pkt) && {
                &&& pkt.pts == frame.pts && pkt.timebase == old(self).timebase
                    && pkt.stream_index == frame.stream_index
                &&& match frame.data {
                    FrameData::Audio(a) => pkt.data@.len() == (a.data@.len() as int / 2 + 1) / 2,
                    FrameData::Video(v) => pkt.data@.len() == (v.data@.len() as int / 2 + 1) / 2,
                }
            },
    {
        let data = match &frame.data {
            FrameData::Audio(a) => &a.data,
            FrameData::Video(v) => &v.data,
        };
        let samples = data.len() / 2;
        let mut output: Vec<u8> = Vec::new();
        let mut i: usize = 0;
        while i < samples
            invariant
                samples == data@.len() as int / 2,
                i <= samples + 1,
                i % 2 == 0,
                output@.len() == i as int / 2,
                self.timebase == old(self).timebase,
                self.channels == old(self).channels,
                self.states@.len() == old(self).states@.len(),
            decreases samples + 2 - i,
        {
            let s0 = get_sample(data, i);
            let nib1: u8 = if self.states.len() > 0 {
                let mut st = self.states[0];
                let v = st.encode_sample(s0);
                self.states.set(0, st);
                v
            } else {
                0
            };
            let nib2: u8 = if i + 1 < samples {
                let s1 = get_sample(data, i + 1);
                let ch2: usize = if self.channels >= 2 && self.states.len() >= 2 {
                    1
                } else {
                    0
                };
                if ch2 < self.states.len() {
                    let mut st = self.states[ch2];
                    let v = st.encode_sample(s1);
                    self.states.set(ch2, st);
                    v
                } else {
                    0
                }
            } else {
                0
            };
            output.push(nib1 + 16 * nib2);
            i = i + 2;
        }
        proof {
            assert(output@.len() == (samples as int + 1) / 2);
        }
        let packet = Packet::new(output, frame.stream_index, self.timebase).with_pts(frame.pts);
        Ok(Some(packet))
    }

    fn flush(&mut self) -> (r: IoResult<Option<Packet>>)
        ensures
            *final(self) == *old(self),
            r matches Ok(p) && p is None,
    {
        Ok(None)
    }
}

} // verus!
