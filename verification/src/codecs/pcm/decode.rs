use vstd::prelude::*;

use crate::codecs::pcm::pcm_decode_frame;
use crate::container::wav::WavFormat;
use crate::io::error::IoResult;
use crate::model::frame::{Frame, FrameAudio};
use crate::model::packet::Packet;
use crate::model::traits::Decoder;

verus! {

/// Stateless: reinterprets each packet's bytes as interleaved 16-bit
/// samples of the configured format.
pub struct PcmDecoder {
    pub format: WavFormat,
}

impl PcmDecoder {
    pub fn new(format: WavFormat) -> (r: PcmDecoder)
        ensures
            r.format == format,
    {
        PcmDecoder { format }
    }
}

impl Decoder for PcmDecoder {
    fn decode(&mut self, packet: Packet) -> (r: IoResult<Option<Frame>>)
        ensures
            *final(self) == *old(self),
            r matches Ok(f) && f == Some(pcm_decode_frame(old(self).format, packet)),
    {
        let bpf = self.format.bytes_per_frame();
        let nb_samples = if bpf == 0 {
            0
        } else {
            packet.size() / bpf
        };
        let pts = packet.pts;
        let audio = FrameAudio::new(
            packet.data,
            self.format.sample_rate,
            self.format.channels,
        ).with_nb_samples(nb_samples);
        let frame = Frame::new_audio(audio, packet.timebase, packet.stream_index).with_pts(pts);
        Ok(Some(frame))
    }

    fn flush(&mut self) -> (r: IoResult<Option<Frame>>)
        ensures
            *final(self) == *old(self),
            r matches Ok(f) && f is None,
    {
        Ok(None)
    }
}

} // verus!
