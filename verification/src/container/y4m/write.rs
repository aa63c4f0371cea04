use vstd::prelude::*;

use crate::container::y4m::{frame_marker, y4m_header_bytes, y4m_magic, Y4mFormat};
use crate::io::error::IoResult;
use crate::io::writer::{MediaWrite, WritePrimitives};
use crate::model::packet::Packet;
use crate::model::traits::Muxer;

verus! {

/// Writes a `YUV4MPEG2` stream: the header line at construction (mirroring
/// the parameters it was given), then `FRAME` and the payload bytes for
/// each packet.
pub struct Y4mWriter<W> {
    pub writer: W,
    pub format: Y4mFormat,
}

impl<W: MediaWrite> Y4mWriter<W> {
    pub fn new(writer: W, format: Y4mFormat) -> (r: IoResult<Y4mWriter<W>>)
        ensures
            writer.appending() ==> (r matches Ok(w) && w.writer.sink() == writer.sink()
                + y4m_header_bytes(format) && w.writer.appending() && w.format == format),
    {
        let mut wr = writer;
        let magic: Vec<u8> = vec![0x59u8, 0x55u8, 0x56u8, 0x34u8, 0x4du8, 0x50u8, 0x45u8, 0x47u8, 0x32u8];
        proof {
            assert(magic@ =~= y4m_magic());
        }
        match wr.write_all(magic.as_slice()) {
            Ok(()) => (),
            Err(e) => {
                return Err(e);
            },
        }
        match wr.write_all(format.raw_params.as_slice()) {
            Ok(()) => (),
            Err(e) => {
                return Err(e);
            },
        }
        match wr.write_u8(0x0a) {
            Ok(()) => (),
            Err(e) => {
                return Err(e);
            },
        }
        proof {
            if writer.appending() {
                assert(wr.sink() =~= writer.sink() + y4m_header_bytes(format));
            }
        }
        Ok(Y4mWriter { writer: wr, format })
    }
}

impl<W: MediaWrite> Muxer for Y4mWriter<W> {
    /// Emits `FRAME`, a line feed, and the packet's bytes.
    fn write_packet(&mut self, packet: Packet) -> (r: IoResult<()>)
        ensures
            old(self).writer.appending() ==> r is Ok && final(self).writer.sink() == old(self).writer.sink() + frame_marker() + packet.data@ && final(self).writer.appending()
                && final(self).format == old(self).format,
    {
        let marker: Vec<u8> = vec![0x46u8, 0x52u8, 0x41u8, 0x4du8, 0x45u8, 0x0au8];
        proof {
            assert(marker@ =~= frame_marker());
        }
        match self.writer.write_all(marker.as_slice()) {
            Ok(()) => (),
            Err(e) => {
                return Err(e);
            },
        }
        match self.writer.write_all(packet.data.as_slice()) {
            Ok(()) => (),
            Err(e) => {
                return Err(e);
            },
        }
        Ok(())
    }

    /// Nothing is buffered beyond the destination's own buffering; flush it.
    fn finalize(&mut self) -> (r: IoResult<()>)
        ensures
            old(self).writer.appending() ==> r is Ok && final(self).writer.sink() == old(self).writer.sink() && final(self).writer.appending() && final(self).format == old(self).format,
    {
        self.writer.flush()
    }
}

} // verus!
