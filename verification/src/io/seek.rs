use vstd::prelude::*;

use crate::io::error::IoResult;
use crate::io::reader::MediaRead;
use crate::io::writer::MediaWrite;

verus! {

/// A seek target: absolute, relative to the end, or relative to the
/// current position.
#[derive(Debug, Clone, Copy, PartialEq, Eq, Structural)]
pub enum SeekFrom {
    Start(u64),
    End(i64),
    Current(i64),
}

/// Repositioning within a byte stream. Each implementation states exactly
/// how the returned absolute position relates to its own state.
pub trait MediaSeek {
    fn seek(&mut self, pos: SeekFrom) -> IoResult<u64>;

    fn stream_position(&mut self) -> IoResult<u64> {
        self.seek(SeekFrom::Current(0))
    }

    fn rewind(&mut self) -> IoResult<()> {
        let _ = self.seek(SeekFrom::Start(0))?;
        Ok(())
    }

    fn stream_len(&mut self) -> IoResult<u64> {
        let current = self.stream_position()?;
        let end = self.seek(SeekFrom::End(0))?;
        if current != end {
            let _ = self.seek(SeekFrom::Start(current))?;
        }
        Ok(end)
    }
}

/// Pairs an independent reader and seeker into one object offering both.
pub struct SeekableReader<R, S> {
    pub reader: R,
    pub seeker: S,
}

impl<R, S> SeekableReader<R, S> {
    pub fn new(reader: R, seeker: S) -> (r: SeekableReader<R, S>)
        ensures
            r.reader == reader,
            r.seeker == seeker,
    {
        SeekableReader { reader, seeker }
    }

    pub fn into_parts(self) -> (r: (R, S))
        ensures
            r.0 == self.reader,
            r.1 == self.seeker,
    {
        (self.reader, self.seeker)
    }

    pub fn reader(&self) -> (r: &R)
        ensures
            r == &self.reader,
    {
        &self.reader
    }

    pub fn reader_mut(&mut self) -> (r: &mut R)
        ensures
            *r == old(self).reader,
            *final(self) == (SeekableReader { reader: *final(r), ..*old(self) }),
    {
        &mut self.reader
    }

    pub fn seeker(&self) -> (r: &S)
        ensures
            r == &self.seeker,
    {
        &self.seeker
    }

    pub fn seeker_mut(&mut self) -> (r: &mut S)
        ensures
            *r == old(self).seeker,
            *final(self) == (SeekableReader { seeker: *final(r), ..*old(self) }),
    {
        &mut self.seeker
    }
}

impl<R: MediaRead, S> MediaRead for SeekableReader<R, S> {
    open spec fn stream(&self) -> Seq<u8> {
        self.reader.stream()
    }

    fn read(&mut self, buf: &mut Vec<u8>) -> (r: IoResult<usize>) {
        self.reader.read(buf)
    }
}

impl<R, S: MediaSeek> MediaSeek for SeekableReader<R, S> {
    fn seek(&mut self, pos: SeekFrom) -> IoResult<u64> {
        self.seeker.seek(pos)
    }
}

/// Pairs an independent writer and seeker into one object offering both.
pub struct SeekableWriter<W, S> {
    pub writer: W,
    pub seeker: S,
}

impl<W, S> SeekableWriter<W, S> {
    pub fn new(writer: W, seeker: S) -> (r: SeekableWriter<W, S>)
        ensures
            r.writer == writer,
            r.seeker == seeker,
    {
        SeekableWriter { writer, seeker }
    }

    pub fn into_parts(self) -> (r: (W, S))
        ensures
            r.0 == self.writer,
            r.1 == self.seeker,
    {
        (self.writer, self.seeker)
    }

    pub fn writer(&self) -> (r: &W)
        ensures
            r == &self.writer,
    {
        &self.writer
    }

    pub fn writer_mut(&mut self) -> (r: &mut W)
        ensures
            *r == old(self).writer,
            *final(self) == (SeekableWriter { writer: *final(r), ..*old(self) }),
    {
        &mut self.writer
    }

    pub fn seeker(&self) -> (r: &S)
        ensures
            r == &self.seeker,
    {
        &self.seeker
    }

    pub fn seeker_mut(&mut self) -> (r: &mut S)
        ensures
            *r == old(self).seeker,
            *final(self) == (SeekableWriter { seeker: *final(r), ..*old(self) }),
    {
        &mut self.seeker
    }
}

impl<W: MediaWrite, S> MediaWrite for SeekableWriter<W, S> {
    open spec fn sink(&self) -> Seq<u8> {
        self.writer.sink()
    }

    open spec fn appending(&self) -> bool {
        self.writer.appending()
    }

    fn write(&mut self, buf: &[u8]) -> (r: IoResult<usize>) {
        self.writer.write(buf)
    }

    fn flush(&mut self) -> (r: IoResult<()>) {
        self.writer.flush()
    }
}

impl<W, S: MediaSeek> MediaSeek for SeekableWriter<W, S> {
    fn seek(&mut self, pos: SeekFrom) -> IoResult<u64> {
        self.seeker.seek(pos)
    }
}

} // verus!
