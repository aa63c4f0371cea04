pub mod decode;
pub mod encode;

pub use decode::RawVideoDecoder;
pub use encode::RawVideoEncoder;

use vstd::prelude::*;

use crate::container::y4m::Y4mFormat;
use crate::model::frame::{Frame, FrameData, FrameVideo, VideoFormat};
use crate::model::packet::Packet;

verus! {

/// The frame a raw-video decode of `packet` produces: the packet's planar
/// bytes wrapped at the configured dimensions, position carried over.
pub open spec fn rawvideo_decode_frame(format: Y4mFormat, packet: Packet) -> Frame {
    Frame {
        data: FrameData::Video(
            FrameVideo {
                data: packet.data,
                width: format.width,
                height: format.height,
                format: VideoFormat::YUV420,
            },
        ),
        pts: packet.pts,
        timebase: packet.timebase,
        stream_index: packet.stream_index,
    }
}

} // verus!
