use vstd::prelude::*;

use crate::codecs::pcm::pcm_encode_packet;
use crate::io::error::IoResult;
use crate::model::frame::{Frame, FrameData};
use crate::model::packet::Packet;
use crate::model::time::Timebase;
use crate::model::traits::Encoder;

verus! {

/// Stateless: emits each frame's plane bytes verbatim as one packet.
pub struct RawVideoEncoder {
    pub timebase: Timebase,
}

impl RawVideoEncoder {
    pub fn new(timebase: Timebase) -> (r: RawVideoEncoder)
        ensures
            r.timebase == timebase,
    {
        RawVideoEncoder { timebase }
    }
}

impl Encoder for RawVideoEncoder {
    fn encode(&mut self, frame: Frame) -> (r: IoResult<Option<Packet>>)
        ensures
            *final(self) == *old(self),
            r matches Ok(p) && p == Some(pcm_encode_packet(old(self).timebase, frame)),
    {
        let pts = frame.pts;
        let stream_index = frame.stream_index;
        let data = match frame.data {
            FrameData::Audio(audio) => audio.data,
            FrameData::Video(video) => video.data,
        };
        let packet = Packet::new(data, stream_index, self.timebase).with_pts(pts);
        Ok(Some(packet))
    }

    fn flush(&mut self) -> (r: IoResult<Option<Packet>>)
        ensures
            *final(self) == *old(self),
            r matches Ok(p) && p is None,
    {
        Ok(None)
    }
}

} // verus!
