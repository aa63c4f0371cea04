use vstd::prelude::*;

use crate::io::error::IoResult;
use crate::io::writer::{MediaWrite, WritePrimitives};
use crate::model::packet::Packet;
use crate::model::traits::Muxer;

verus! {

/// Concatenates frame packets verbatim: the stream is its frames.
pub struct Mp3Writer<W> {
    pub writer: W,
}

impl<W: MediaWrite> Mp3Writer<W> {
    pub fn new(writer: W) -> (r: IoResult<Mp3Writer<W>>)
        ensures
            r matches Ok(w) && w.writer == writer,
    {
        Ok(Mp3Writer { writer })
    }
}

impl<W: MediaWrite> Muxer for Mp3Writer<W> {
    fn write_packet(&mut self, packet: Packet) -> (r: IoResult<()>)
        ensures
            old(self).writer.appending() ==> r is Ok && final(self).writer.sink() == old(self).writer.sink() + packet.data@ && final(self).writer.appending(),
    {
        self.writer.write_all(packet.data.as_slice())
    }

    fn finalize(&mut self) -> (r: IoResult<()>)
        ensures
            old(self).writer.appending() ==> r is Ok && final(self).writer.sink() == old(self).writer.sink() && final(self).writer.appending(),
    {
        self.writer.flush()
    }
}

} // verus!
