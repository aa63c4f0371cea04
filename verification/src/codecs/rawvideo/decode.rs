use vstd::prelude::*;

use crate::codecs::rawvideo::rawvideo_decode_frame;
use crate::container::y4m::Y4mFormat;
use crate::io::error::IoResult;
use crate::model::frame::{Frame, FrameVideo, VideoFormat};
use crate::model::packet::Packet;
use crate::model::traits::Decoder;

verus! {

/// Stateless: wraps each packet's planar bytes into a YUV 4:2:0 frame of
/// the configured dimensions.
pub struct RawVideoDecoder {
    pub format: Y4mFormat,
}

impl RawVideoDecoder {
    pub fn new(format: Y4mFormat) -> (r: RawVideoDecoder)
        ensures
            r.format == format,
    {
        RawVideoDecoder { format }
    }
}

impl Decoder for RawVideoDecoder {
    fn decode(&mut self, packet: Packet) -> (r: IoResult<Option<Frame>>)
        ensures
            final(self).format == old(self).format,
            r matches Ok(f) && f == Some(rawvideo_decode_frame(old(self).format, packet)),
    {
        let pts = packet.pts;
        let video = FrameVideo::new(
            packet.data,
            self.format.width,
            self.format.height,
            VideoFormat::YUV420,
        );
        let frame = Frame::new_video(video, packet.timebase, packet.stream_index).with_pts(pts);
        Ok(Some(frame))
    }

    fn flush(&mut self) -> (r: IoResult<Option<Frame>>)
        ensures
            final(self).format == old(self).format,
            r matches Ok(f) && f is None,
    {
        Ok(None)
    }
}

} // verus!
