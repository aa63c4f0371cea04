use vstd::prelude::*;

use crate::codecs::pcm::pcm_encode_packet;
use crate::io::error::IoResult;
use crate::model::frame::{Frame, FrameData};
use crate::model::packet::Packet;
use crate::model::time::Timebase;
use crate::model::traits::Encoder;

verus! {

/// Stateless: emits each frame's byte buffer verbatim as one packet.
pub struct PcmEncoder {
    pub timebase: Timebase,
}

impl PcmEncoder {
    pub fn new(timebase: Timebase) -> (r: PcmEncoder)
        ensures
            r.timebase == timebase,
    {
        PcmEncoder { timebase }
    }
}

impl Encoder for PcmEncoder {
    fn encode(&mut self, frame: Frame) -> (r: IoResult<Option<Packet>>)
        ensures
            *final(self) == *old(self),
            r matches Ok(p) && p == Some(pcm_encode_packet(old(self).timebase, frame)),
    {
        let pts = frame.pts;
        let stream_index = frame.stream_index;
        let data = match frame.data {
            FrameData::Audio(audio) => audio.data,
            FrameData::Video(video) => video.data,
        };
        let packet = Packet::new(data, stream_index, self.timebase).with_pts(pts);
        Ok(Some(packet))
    }

    fn flush(&mut self) -> (r: IoResult<Option<Packet>>)
        ensures
            *final(self) == *old(self),
            r matches Ok(p) && p is None,
    {
        Ok(None)
    }
}

} // verus!
