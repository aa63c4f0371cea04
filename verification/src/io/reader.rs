use vstd::prelude::*;

use crate::io::endian;
use crate::io::error::{IoError, IoResult};

verus! {

pub const DEFAULT_BUFFER_SIZE: usize = 8192;

/// A byte source. `stream()` is the sequence of bytes the source will still
/// deliver; a successful `read` hands out a prefix of it. A read of zero
/// bytes into a non-empty buffer means the stream is exhausted.
pub trait MediaRead {
    spec fn stream(&self) -> Seq<u8>;

    fn read(&mut self, buf: &mut Vec<u8>) -> (r: IoResult<usize>)
        ensures
            final(buf)@.len() == old(buf)@.len(),
            r matches Ok(n) && n <= old(buf)@.len() && n <= old(self).stream().len() && (old(buf)@.len() > 0 && old(self).stream().len() > 0 ==> n > 0) && final(buf)@ == old(self).stream().take(n as int) + old(buf)@.skip(n as int) && final(self).stream() == old(self).stream().skip(n as int),
    ;
}

/// Endian-typed helpers derived purely from `read`; they retry nothing and
/// surface a short read as `UnexpectedEof`.
pub trait ReadPrimitives: MediaRead {
    #[verifier::loop_isolation(false)]
    fn read_exact(&mut self, buf: &mut Vec<u8>) -> (r: IoResult<()>)
        ensures
            final(buf)@.len() == old(buf)@.len(),
            final(self).stream().len() <= old(self).stream().len(),
            old(self).stream().len() >= old(buf)@.len() ==> r is Ok,
            r is Ok ==> old(self).stream().len() >= old(buf)@.len() && final(buf)@ == old(self).stream().take(old(buf)@.len() as int) && final(self).stream() == old(self).stream().skip(old(buf)@.len() as int),
            r matches Err(e) ==> e.spec_kind() == crate::io::error::IoErrorKind::UnexpectedEof,
    {
        let ghost orig_stream = self.stream();
        let ghost orig_buf = buf@;
        let len = buf.len();
        let mut filled: usize = 0;
        while filled < len
            invariant
                filled <= len,
                len == buf@.len() && len == orig_buf.len(),
                filled <= orig_stream.len(),
                forall|j: int| 0 <= j < filled ==> buf@[j] == orig_stream[j],
                forall|j: int| filled <= j < len ==> buf@[j] == orig_buf[j],
                self.stream() == orig_stream.skip(filled as int),
            decreases len - filled,
        {
            let want = len - filled;
            let mut chunk: Vec<u8> = vec![0u8; want];
            match self.read(&mut chunk) {
                Ok(0) => {
                    return Err(IoError::unexpected_eof());
                },
                Ok(n) => {
                    let mut i: usize = 0;
                    while i < n
                        invariant
                            i <= n <= chunk@.len(),
                            filled + n <= len,
                            len == buf@.len() && len == orig_buf.len(),
                            filled + n <= orig_stream.len(),
                            forall|j: int|
                                0 <= j < n ==> chunk@[j] == orig_stream[filled + j],
                            forall|j: int| 0 <= j < filled + i ==> buf@[j] == orig_stream[j],
                            forall|j: int| filled + i <= j < len ==> buf@[j] == orig_buf[j],
                        decreases n - i,
                    {
                        let b = chunk[i];
                        buf.set(filled + i, b);
                        i = i + 1;
                    }
                    proof {
                        assert(self.stream() =~= orig_stream.skip((filled + n) as int));
                    }
                    filled = filled + n;
                },
                Err(e) => {
                    // host failures such as missing files pass through
                    return Err(e);
                },
            }
        }
        proof {
            assert(buf@ =~= orig_stream.take(len as int));
            assert(self.stream() =~= orig_stream.skip(len as int));
        }
        Ok(())
    }

    fn read_u8(&mut self) -> (r: IoResult<u8>)
        ensures
            final(self).stream().len() <= old(self).stream().len(),
            old(self).stream().len() >= 1 ==> r is Ok,
            r matches Ok(v) ==> old(self).stream().len() >= 1 && v == old(self).stream()[0]
                && final(self).stream() == old(self).stream().skip(1),
            r matches Err(e) ==> e.spec_kind() == crate::io::error::IoErrorKind::UnexpectedEof,
    {
        let mut buf: Vec<u8> = vec![0u8; 1];
        self.read_exact(&mut buf)?;
        proof { assert(buf@[0] == old(self).stream()[0]); }
        Ok(buf[0])
    }

    fn read_u16_le(&mut self) -> (r: IoResult<u16>)
        ensures
            old(self).stream().len() >= 2 ==> r is Ok,
            r matches Ok(v) ==> old(self).stream().len() >= 2 && v == endian::le16(
                old(self).stream()[0],
                old(self).stream()[1],
            ) && final(self).stream() == old(self).stream().skip(2),
            r matches Err(e) ==> e.spec_kind() == crate::io::error::IoErrorKind::UnexpectedEof,
    {
        let mut buf: Vec<u8> = vec![0u8; 2];
        self.read_exact(&mut buf)?;
        proof { assert(buf@[0] == old(self).stream()[0]); assert(buf@[1] == old(self).stream()[1]); }
        Ok(endian::u16_from_le(buf[0], buf[1]))
    }

    fn read_u16_be(&mut self) -> (r: IoResult<u16>)
        ensures
            old(self).stream().len() >= 2 ==> r is Ok,
            r matches Ok(v) ==> old(self).stream().len() >= 2 && v == endian::be16(
                old(self).stream()[0],
                old(self).stream()[1],
            ) && final(self).stream() == old(self).stream().skip(2),
            r matches Err(e) ==> e.spec_kind() == crate::io::error::IoErrorKind::UnexpectedEof,
    {
        let mut buf: Vec<u8> = vec![0u8; 2];
        self.read_exact(&mut buf)?;
        proof { assert(buf@[0] == old(self).stream()[0]); assert(buf@[1] == old(self).stream()[1]); }
        Ok(endian::u16_from_be(buf[0], buf[1]))
    }

    fn read_i16_le(&mut self) -> (r: IoResult<i16>)
        ensures
            old(self).stream().len() >= 2 ==> r is Ok,
            r matches Ok(v) ==> old(self).stream().len() >= 2 && v == endian::le16_signed(
                old(self).stream()[0],
                old(self).stream()[1],
            ) && final(self).stream() == old(self).stream().skip(2),
            r matches Err(e) ==> e.spec_kind() == crate::io::error::IoErrorKind::UnexpectedEof,
    {
        let mut buf: Vec<u8> = vec![0u8; 2];
        self.read_exact(&mut buf)?;
        proof { assert(buf@[0] == old(self).stream()[0]); assert(buf@[1] == old(self).stream()[1]); }
        Ok(endian::i16_from_le(buf[0], buf[1]))
    }

    fn read_u32_le(&mut self) -> (r: IoResult<u32>)
        ensures
            old(self).stream().len() >= 4 ==> r is Ok,
            r matches Ok(v) ==> old(self).stream().len() >= 4 && v == endian::le32(
                old(self).stream()[0],
                old(self).stream()[1],
                old(self).stream()[2],
                old(self).stream()[3],
            ) && final(self).stream() == old(self).stream().skip(4),
            r matches Err(e) ==> e.spec_kind() == crate::io::error::IoErrorKind::UnexpectedEof,
    {
        let mut buf: Vec<u8> = vec![0u8; 4];
        self.read_exact(&mut buf)?;
        proof { assert(buf@[0] == old(self).stream()[0]); assert(buf@[1] == old(self).stream()[1]); assert(buf@[2] == old(self).stream()[2]); assert(buf@[3] == old(self).stream()[3]); }
        Ok(endian::u32_from_le(buf[0], buf[1], buf[2], buf[3]))
    }

    fn read_u32_be(&mut self) -> (r: IoResult<u32>)
        ensures
            old(self).stream().len() >= 4 ==> r is Ok,
            r matches Ok(v) ==> old(self).stream().len() >= 4 && v == endian::be32(
                old(self).stream()[0],
                old(self).stream()[1],
                old(self).stream()[2],
                old(self).stream()[3],
            ) && final(self).stream() == old(self).stream().skip(4),
            r matches Err(e) ==> e.spec_kind() == crate::io::error::IoErrorKind::UnexpectedEof,
    {
        let mut buf: Vec<u8> = vec![0u8; 4];
        self.read_exact(&mut buf)?;
        proof { assert(buf@[0] == old(self).stream()[0]); assert(buf@[1] == old(self).stream()[1]); assert(buf@[2] == old(self).stream()[2]); assert(buf@[3] == old(self).stream()[3]); }
        Ok(endian::u32_from_be(buf[0], buf[1], buf[2], buf[3]))
    }
}

impl<T: MediaRead> ReadPrimitives for T {

}

/// Wraps a reader and refills an internal window only when it is empty;
/// reads at least as large as the window capacity bypass it. The stream seen
/// through the buffer is exactly the inner stream: buffering is transparent.
pub struct BufferedReader<R> {
    pub inner: R,
    pub window: Vec<u8>,
    pub pos: usize,
    pub cap: usize,
}

impl<R: MediaRead> BufferedReader<R> {
    /// Unconsumed buffered bytes, oldest first.
    pub open spec fn window_view(&self) -> Seq<u8> {
        if self.pos <= self.window@.len() {
            self.window@.skip(self.pos as int)
        } else {
            Seq::empty()
        }
    }

    pub fn new(inner: R) -> (r: BufferedReader<R>)
        ensures
            r.stream() == inner.stream(),
            r.capacity() == DEFAULT_BUFFER_SIZE,
    {
        BufferedReader { inner, window: Vec::new(), pos: 0, cap: DEFAULT_BUFFER_SIZE }
    }

    pub fn with_capacity(capacity: usize, inner: R) -> (r: BufferedReader<R>)
        ensures
            r.stream() == inner.stream(),
            r.capacity() == capacity,
    {
        BufferedReader { inner, window: Vec::new(), pos: 0, cap: capacity }
    }

    pub fn into_inner(self) -> (r: R)
        ensures
            r.stream() == self.inner.stream(),
    {
        self.inner
    }

    pub fn get_ref(&self) -> (r: &R)
        ensures
            r == &self.inner,
    {
        &self.inner
    }

    pub open spec fn spec_capacity(&self) -> usize {
        self.cap
    }

    #[verifier::when_used_as_spec(spec_capacity)]
    pub fn capacity(&self) -> (r: usize)
        ensures
            r == self.spec_capacity(),
    {
        self.cap
    }

    /// The buffered bytes not yet handed out.
    pub fn buffer(&self) -> (r: &[u8])
        ensures
            r@ == self.window_view(),
    {
        if self.pos <= self.window.len() {
            vstd::slice::slice_subrange(self.window.as_slice(), self.pos, self.window.len())
        } else {
            vstd::slice::slice_subrange(self.window.as_slice(), 0, 0)
        }
    }
}

impl<R: MediaRead> MediaRead for BufferedReader<R> {
    open spec fn stream(&self) -> Seq<u8> {
        self.window_view() + self.inner.stream()
    }

    #[verifier::loop_isolation(false)]
    fn read(&mut self, buf: &mut Vec<u8>) -> (r: IoResult<usize>) {
        if buf.len() >= self.cap && self.pos >= self.window.len() {
            proof {
                assert(self.stream() =~= self.inner.stream());
            }
            let r = self.inner.read(buf);
            proof {
                assert(self.stream() =~= self.inner.stream());
            }
            return r;
        }
        if self.pos >= self.window.len() {
            // the window is exhausted: refill it from the inner source
            let mut fresh: Vec<u8> = vec![0u8; self.cap];
            let n = match self.inner.read(&mut fresh) {
                Ok(n) => n,
                Err(e) => {
                    return Err(e);
                },
            };
            fresh.truncate(n);
            self.window = fresh;
            self.pos = 0;
            proof {
                assert(self.stream() =~= old(self).stream());
            }
        }
        let wlen = self.window.len();
        let avail = wlen - self.pos;
        let amt = if avail < buf.len() {
            avail
        } else {
            buf.len()
        };
        let ghost pre_buf = buf@;
        let ghost pre_window = self.window_view();
        let ghost pre_inner = self.inner.stream();
        proof {
            assert(pre_window + pre_inner == old(self).stream());
            assert(pre_window =~= self.window@.skip(self.pos as int));
        }
        let mut i: usize = 0;
        while i < amt
            invariant
                amt <= avail,
                self.pos + avail == wlen,
                wlen == self.window@.len(),
                i <= amt <= buf@.len() && buf@.len() == pre_buf.len(),
                forall|j: int| 0 <= j < i ==> buf@[j] == self.window@[self.pos + j],
                forall|j: int| i <= j < buf@.len() ==> buf@[j] == pre_buf[j],
            decreases amt - i,
        {
            let b = self.window[self.pos + i];
            buf.set(i, b);
            i = i + 1;
        }
        self.pos = self.pos + amt;
        proof {
            assert(buf@ =~= (pre_window + pre_inner).take(amt as int) + pre_buf.skip(amt as int));
            assert(self.stream() =~= (pre_window + pre_inner).skip(amt as int));
        }
        Ok(amt)
    }
}

} // verus!
