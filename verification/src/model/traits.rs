use vstd::prelude::*;

use crate::model::frame::Frame;
use crate::model::packet::Packet;
use crate::io::error::IoResult;

verus! {

/// A container reader: yields the container's packets in stream order.
/// Each implementation carries its own exact contract on `read_packet`.
pub trait Demuxer {
    fn read_packet(&mut self) -> IoResult<Option<Packet>>;

    fn stream_count(&self) -> usize;
}

/// A converter from compressed packets to raw frames. `None` means the
/// codec needs more input before it can produce a frame.
pub trait Decoder {
    fn decode(&mut self, packet: Packet) -> IoResult<Option<Frame>>;

    fn flush(&mut self) -> IoResult<Option<Frame>>;
}

/// A converter from raw frames to compressed packets.
pub trait Encoder {
    fn encode(&mut self, frame: Frame) -> IoResult<Option<Packet>>;

    fn flush(&mut self) -> IoResult<Option<Packet>>;
}

/// A container writer. `finalize` is mandatory: it emits or patches any
/// size fields and flushes buffered state.
pub trait Muxer {
    fn write_packet(&mut self, packet: Packet) -> IoResult<()>;

    fn finalize(&mut self) -> IoResult<()>;
}

/// A stateful per-frame processor. A transform targeting one media kind
/// returns frames of the other kind unchanged.
pub trait Transform {
    fn apply(&mut self, frame: Frame) -> IoResult<Frame>;

    fn name(&self) -> &'static str;
}

} // verus!
