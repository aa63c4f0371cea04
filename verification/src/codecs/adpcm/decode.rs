use vstd::prelude::*;

use crate::codecs::adpcm::AdpcmState;
use crate::container::wav::WavFormat;
use crate::io::error::IoResult;
use crate::model::frame::{Frame, FrameAudio};
use crate::model::packet::Packet;
use crate::model::traits::Decoder;
use crate::transform::set_sample;

verus! {

/// Per-channel predictor state; two samples per input byte, low nibble
/// first, assigned to channels round robin.
pub struct AdpcmDecoder {
    pub format: WavFormat,
    pub states: Vec<AdpcmState>,
}

impl AdpcmDecoder {
    pub fn new(format: WavFormat) -> (r: AdpcmDecoder)
        ensures
            r.format == format,
            r.states@.len() == format.channels,
    {
        let mut states: Vec<AdpcmState> = Vec::new();
        let mut i: u8 = 0;
        while i < format.channels
            invariant
                i <= format.channels,
                states@.len() == i,
            decreases format.channels - i,
        {
            states.push(AdpcmState::new());
            i = i + 1;
        }
        AdpcmDecoder { format, states }
    }
}

impl Decoder for AdpcmDecoder {
    /// Expands every input byte into two 16-bit samples; an empty packet
    /// asks for more input. The output length and the frame metadata are
    /// exact; the sample values follow the per-nibble `ima_step` chain of
    /// each channel's state.
    #[verifier::loop_isolation(false)]
    fn decode(&mut self, packet: Packet) -> (r: IoResult<Option<Frame>>)
        ensures
            final(self).format == old(self).format,
            final(self).states@.len() == old(self).states@.len(),
            r matches Ok(f) && (packet.data@.len() == 0 <==> f is None),
            r matches Ok(f) && (f matches Some(frame) ==> {
                &&& frame.is_audio()
                &&& (packet.data@.len() <= usize::MAX / 4 ==> frame.spec_audio().data@.len() == 4
                    * packet.data@.len())
                &&& frame.spec_audio().sample_rate == old(self).format.sample_rate
                &&& frame.spec_audio().channels == old(self).format.channels
                &&& frame.pts == packet.pts && frame.timebase == packet.timebase
                    && frame.stream_index == packet.stream_index
            }),
    {
        if packet.data.len() == 0 {
            return Ok(None);
        }
        let channels: usize = if self.format.channels == 0 || self.states.len() == 0 {
            1
        } else {
            self.format.channels as usize
        };
        let n = packet.data.len();
        if n > usize::MAX / 4 {
            let audio = FrameAudio::new(
                Vec::new(),
                self.format.sample_rate,
                self.format.channels,
            );
            let frame = Frame::new_audio(audio, packet.timebase, packet.stream_index).with_pts(
                packet.pts,
            );
            return Ok(Some(frame));
        }
        let mut output: Vec<u8> = vec![0u8; 4 * n];
        let mut i: usize = 0;
        while i < n
            invariant
                n == packet.data@.len(),
                n <= usize::MAX / 4,
                output@.len() == 4 * n,
                i <= n,
                channels >= 1,
                self.states@.len() == old(self).states@.len(),
                self.format == old(self).format,
            decreases n - i,
        {
            let byte = packet.data[i];
            let low = byte % 16;
            let high = byte / 16;
            let ch1 = (2 * i) % channels;
            let ch2 = (2 * i + 1) % channels;
            if ch1 < self.states.len() && ch2 < self.states.len() {
                let mut st1 = self.states[ch1];
                let s1 = st1.decode_sample(low);
                self.states.set(ch1, st1);
                set_sample(&mut output, 2 * i, s1);
                let mut st2 = self.states[ch2];
                let s2 = st2.decode_sample(high);
                self.states.set(ch2, st2);
                set_sample(&mut output, 2 * i + 1, s2);
            }
            i = i + 1;
        }
        let nb = (2 * n) / channels;
        let audio = FrameAudio::new(
            output,
            self.format.sample_rate,
            self.format.channels,
        ).with_nb_samples(nb);
        let frame = Frame::new_audio(audio, packet.timebase, packet.stream_index).with_pts(
            packet.pts,
        );
        Ok(Some(frame))
    }

    fn flush(&mut self) -> (r: IoResult<Option<Frame>>)
        ensures
            *final(self) == *old(self),
            r matches Ok(f) && f is None,
    {
        Ok(None)
    }
}

} // verus!
