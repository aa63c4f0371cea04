use vstd::prelude::*;

use crate::io::error::{IoError, IoErrorKind, IoResult};
use crate::io::reader::MediaRead;
use crate::io::seek::{MediaSeek, SeekFrom};
use crate::io::endian;
use crate::io::writer::{prefix_to, write_at, MediaWrite, PatchSink};

verus! {

/// An in-memory byte buffer offering reading, writing and seeking, used by
/// the containers and the tests as the universal stream.
pub struct Cursor<T> {
    pub inner: T,
    pub pos: u64,
}

impl<T> Cursor<T> {
    pub open spec fn spec_position(&self) -> u64 {
        self.pos
    }

    pub fn new(inner: T) -> (r: Cursor<T>)
        ensures
            r.inner == inner,
            r.spec_position() == 0,
    {
        Cursor { inner, pos: 0 }
    }

    pub fn into_inner(self) -> (r: T)
        ensures
            r == self.inner,
    {
        self.inner
    }

    pub fn get_ref(&self) -> (r: &T)
        ensures
            r == &self.inner,
    {
        &self.inner
    }

    #[verifier::when_used_as_spec(spec_position)]
    pub fn position(&self) -> (r: u64)
        ensures
            r == self.spec_position(),
    {
        self.pos
    }

    pub fn set_position(&mut self, pos: u64)
        ensures
            final(self).pos == pos,
            final(self).inner == old(self).inner,
    {
        self.pos = pos;
    }
}

impl MediaRead for Cursor<Vec<u8>> {
    open spec fn stream(&self) -> Seq<u8> {
        if self.pos <= self.inner@.len() {
            self.inner@.skip(self.pos as int)
        } else {
            Seq::empty()
        }
    }

    #[verifier::loop_isolation(false)]
    fn read(&mut self, buf: &mut Vec<u8>) -> (r: IoResult<usize>) {
        let len = self.inner.len();
        if self.pos >= len as u64 {
            return Ok(0);
        }
        let pos = self.pos as usize;
        let remaining = len - pos;
        let amt = if remaining < buf.len() {
            remaining
        } else {
            buf.len()
        };
        let ghost pre_buf = buf@;
        let mut i: usize = 0;
        while i < amt
            invariant
                amt <= remaining,
                pos + remaining == len,
                len == self.inner@.len(),
                pos == self.pos,
                self.inner@ == old(self).inner@,
                i <= amt <= buf@.len() && buf@.len() == pre_buf.len(),
                forall|j: int| 0 <= j < i ==> buf@[j] == self.inner@[pos + j],
                forall|j: int| i <= j < buf@.len() ==> buf@[j] == pre_buf[j],
            decreases amt - i,
        {
            let b = self.inner[pos + i];
            buf.set(i, b);
            i = i + 1;
        }
        self.pos = self.pos + amt as u64;
        proof {
            assert(buf@ =~= old(self).stream().take(amt as int) + pre_buf.skip(amt as int));
            assert(self.stream() =~= old(self).stream().skip(amt as int));
        }
        Ok(amt)
    }
}

impl MediaWrite for Cursor<Vec<u8>> {
    open spec fn sink(&self) -> Seq<u8> {
        self.inner@
    }

    open spec fn appending(&self) -> bool {
        self.pos == self.inner@.len()
    }

    #[verifier::loop_isolation(false)]
    fn write(&mut self, buf: &[u8]) -> (r: IoResult<usize>)
        ensures
            r matches Ok(n) ==> n == buf@.len() && final(self).inner@ == write_at(
                old(self).inner@,
                old(self).pos as int,
                buf@,
            ) && final(self).pos == old(self).pos + buf@.len(),
            r is Err ==> old(self).pos > usize::MAX && *final(self) == *old(self),
    {
        let dlen = self.inner.len();
        if self.pos > usize::MAX as u64 {
            return Err(IoError::with_message(IoErrorKind::Other, "cursor position overflow"));
        }
        let pos = self.pos as usize;
        if pos == dlen {
            // the common case: appending at the end
            self.inner.extend_from_slice(buf);
            self.pos = self.inner.len() as u64;
            proof {
                assert(self.inner@ =~= write_at(old(self).inner@, old(self).pos as int, buf@));
                assert(self.inner@ =~= old(self).inner@ + buf@.take(buf@.len() as int));
            }
            return Ok(buf.len());
        }
        let mut out: Vec<u8> = Vec::new();
        let head = if pos < self.inner.len() {
            pos
        } else {
            self.inner.len()
        };
        let mut i: usize = 0;
        while i < head
            invariant
                i <= head <= self.inner@.len(),
                self == old(self),
                out@ == self.inner@.take(i as int),
            decreases head - i,
        {
            let b = self.inner[i];
            out.push(b);
            proof {
                assert(out@ =~= self.inner@.take(i + 1));
            }
            i = i + 1;
        }
        while out.len() < pos
            invariant
                self == old(self),
                head == if pos < self.inner@.len() {
                    pos as int
                } else {
                    self.inner@.len() as int
                },
                head <= out@.len() <= pos,
                out@ == self.inner@.take(head as int) + Seq::new(
                    (out@.len() - head) as nat,
                    |k: int| 0u8,
                ),
            decreases pos - out@.len(),
        {
            out.push(0u8);
            proof {
                assert(out@ =~= self.inner@.take(head as int) + Seq::new(
                    (out@.len() - head) as nat,
                    |k: int| 0u8,
                ));
            }
        }
        proof {
            assert(out@ =~= prefix_to(self.inner@, pos as int));
        }
        out.extend_from_slice(buf);
        // bytes of the original data beyond the written span survive
        let has_tail = buf.len() <= self.inner.len() && pos < self.inner.len() - buf.len();
        if has_tail {
            let mut src: usize = pos + buf.len();
            while src < self.inner.len()
                invariant
                    self == old(self),
                    pos + buf@.len() <= src <= self.inner@.len(),
                    out@ == prefix_to(self.inner@, pos as int) + buf@ + self.inner@.subrange(
                        pos + buf@.len(),
                        src as int,
                    ),
                decreases self.inner@.len() - src,
            {
                let b = self.inner[src];
                out.push(b);
                proof {
                    assert(out@ =~= prefix_to(self.inner@, pos as int) + buf@
                        + self.inner@.subrange(pos + buf@.len(), src + 1));
                }
                src = src + 1;
            }
        }
        proof {
            assert(out@ =~= write_at(self.inner@, pos as int, buf@));
        }
        self.inner = out;
        let newlen = self.inner.len();
        proof {
            assert(pos + buf@.len() <= newlen);
        }
        self.pos = (pos + buf.len()) as u64;
        Ok(buf.len())
    }

    fn flush(&mut self) -> (r: IoResult<()>) {
        Ok(())
    }
}

/// Patching seeks to the offset, overwrites with a plain write, and seeks
/// back to the end, as a file on disk would be patched.
impl PatchSink for Cursor<Vec<u8>> {
    fn patch_u32_le(&mut self, pos: u64, v: u32) -> (r: IoResult<()>) {
        let len = self.inner.len();
        if pos > len as u64 {
            return Err(IoError::invalid_data("patch offset beyond end of output"));
        }
        match self.seek(SeekFrom::Start(pos)) {
            Ok(_) => (),
            Err(e) => {
                return Err(e);
            },
        }
        let (b0, b1, b2, b3) = endian::u32_to_le(v);
        let buf: Vec<u8> = vec![b0, b1, b2, b3];
        match MediaWrite::write(self, buf.as_slice()) {
            Ok(_) => (),
            Err(e) => {
                return Err(e);
            },
        }
        proof {
            assert(buf@ =~= endian::le32_bytes(v));
        }
        match self.seek(SeekFrom::End(0)) {
            Ok(_) => (),
            Err(e) => {
                return Err(e);
            },
        }
        Ok(())
    }
}

impl MediaSeek for Cursor<Vec<u8>> {
    fn seek(&mut self, pos: SeekFrom) -> (r: IoResult<u64>)
        ensures
            final(self).inner@ == old(self).inner@,
            r matches Ok(p) ==> final(self).pos == p && match pos {
                SeekFrom::Start(s) => p == s,
                SeekFrom::End(k) => p == old(self).inner@.len() + k,
                SeekFrom::Current(k) => p == old(self).pos + k,
            },
            r is Err ==> final(self).pos == old(self).pos && match pos {
                SeekFrom::Start(s) => false,
                SeekFrom::End(k) => !(0 <= old(self).inner@.len() + k <= u64::MAX),
                SeekFrom::Current(k) => !(0 <= old(self).pos + k <= u64::MAX),
            },
    {
        match pos {
            SeekFrom::Start(s) => {
                self.pos = s;
                Ok(s)
            },
            SeekFrom::End(k) => {
                let base = self.inner.len() as u64;
                let target: i128 = base as i128 + k as i128;
                if target < 0 || target > u64::MAX as i128 {
                    Err(IoError::invalid_data("seek out of range"))
                } else {
                    self.pos = target as u64;
                    Ok(self.pos)
                }
            },
            SeekFrom::Current(k) => {
                let target: i128 = self.pos as i128 + k as i128;
                if target < 0 || target > u64::MAX as i128 {
                    Err(IoError::invalid_data("seek out of range"))
                } else {
                    self.pos = target as u64;
                    Ok(self.pos)
                }
            },
        }
    }

    fn stream_position(&mut self) -> (r: IoResult<u64>)
        ensures
            *final(self) == *old(self),
            r matches Ok(p) && p == old(self).pos,
    {
        Ok(self.pos)
    }
}

} // verus!
