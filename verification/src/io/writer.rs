use vstd::prelude::*;

use crate::io::endian;
use crate::io::error::{IoError, IoResult};

verus! {

/// The first `pos` bytes of the data, zero padded when `pos` lies past
/// its end.
pub open spec fn prefix_to(data: Seq<u8>, pos: int) -> Seq<u8> {
    if pos <= data.len() {
        data.take(pos)
    } else {
        data + Seq::new((pos - data.len()) as nat, |i: int| 0u8)
    }
}

/// The effect of writing `buf` into `data` at `pos`: bytes in the middle
/// are overwritten, a position past the end is first reached by zero
/// padding, and anything beyond grows the data.
pub open spec fn write_at(data: Seq<u8>, pos: int, buf: Seq<u8>) -> Seq<u8> {
    prefix_to(data, pos) + buf + if pos + buf.len() < data.len() {
        data.skip(pos + buf.len())
    } else {
        Seq::empty()
    }
}

/// A byte sink. `sink()` is everything the writer has accepted so far.
/// While a writer is in `appending()` state, every successful write lands
/// verbatim at the end of the sink; a writer that has been repositioned
/// into the middle of its output leaves this state.
pub trait MediaWrite {
    spec fn sink(&self) -> Seq<u8>;

    spec fn appending(&self) -> bool;

    fn write(&mut self, buf: &[u8]) -> (r: IoResult<usize>)
        ensures
            old(self).appending() ==> r is Ok,
            r matches Ok(n) ==> n <= buf@.len() && (buf@.len() > 0 ==> n > 0) && (old(self).appending() ==> final(self).sink() == old(self).sink() + buf@.take(n as int) && final(self).appending()),
    ;

    fn flush(&mut self) -> (r: IoResult<()>)
        ensures
            old(self).appending() ==> r is Ok && final(self).sink() == old(self).sink() && final(self).appending(),
    ;
}

/// Whole-buffer and endian-typed writes derived purely from `write`.
pub trait WritePrimitives: MediaWrite {
    #[verifier::loop_isolation(false)]
    fn write_all(&mut self, buf: &[u8]) -> (r: IoResult<()>)
        ensures
            old(self).appending() ==> r is Ok && final(self).sink() == old(self).sink() + buf@
                && final(self).appending(),
    {
        let ghost orig_sink = self.sink();
        let ghost orig_app = self.appending();
        let len = buf.len();
        let mut written: usize = 0;
        while written < len
            invariant
                written <= len,
                len == buf@.len(),
                orig_app ==> self.appending() && self.sink() == orig_sink + buf@.take(
                    written as int,
                ),
            decreases len - written,
        {
            let rest = vstd::slice::slice_subrange(buf, written, len);
            match self.write(rest) {
                Ok(n) => {
                    proof {
                        if orig_app {
                            assert(orig_sink + buf@.take(written as int) + rest@.take(n as int)
                                =~= orig_sink + buf@.take((written + n) as int));
                        }
                    }
                    written = written + n;
                },
                Err(e) => {
                    return Err(e);
                },
            }
        }
        proof {
            if orig_app {
                assert(buf@.take(len as int) =~= buf@);
            }
        }
        Ok(())
    }

    fn write_u8(&mut self, v: u8) -> (r: IoResult<()>)
        ensures
            old(self).appending() ==> r is Ok && final(self).sink() == old(self).sink() + seq![v]
                && final(self).appending(),
    {
        let buf: Vec<u8> = vec![v];
        proof {
            assert(buf@ =~= seq![v]);
        }
        self.write_all(buf.as_slice())
    }

    fn write_u16_le(&mut self, v: u16) -> (r: IoResult<()>)
        ensures
            old(self).appending() ==> r is Ok && final(self).sink() == old(self).sink()
                + endian::le16_bytes(v) && final(self).appending(),
    {
        let (b0, b1) = endian::u16_to_le(v);
        let buf: Vec<u8> = vec![b0, b1];
        proof {
            assert(buf@ =~= seq![b0, b1]);
        }
        self.write_all(buf.as_slice())
    }

    fn write_u16_be(&mut self, v: u16) -> (r: IoResult<()>)
        ensures
            old(self).appending() ==> r is Ok && final(self).sink() == old(self).sink()
                + endian::be16_bytes(v) && final(self).appending(),
    {
        let (b0, b1) = endian::u16_to_be(v);
        let buf: Vec<u8> = vec![b0, b1];
        proof {
            assert(buf@ =~= seq![b0, b1]);
        }
        self.write_all(buf.as_slice())
    }

    fn write_i16_le(&mut self, v: i16) -> (r: IoResult<()>)
        ensures
            old(self).appending() ==> r is Ok && final(self).sink() == old(self).sink()
                + endian::le16_signed_bytes(v) && final(self).appending(),
    {
        let (b0, b1) = endian::i16_to_le(v);
        let buf: Vec<u8> = vec![b0, b1];
        proof {
            assert(buf@ =~= seq![b0, b1]);
        }
        self.write_all(buf.as_slice())
    }

    fn write_u32_le(&mut self, v: u32) -> (r: IoResult<()>)
        ensures
            old(self).appending() ==> r is Ok && final(self).sink() == old(self).sink()
                + endian::le32_bytes(v) && final(self).appending(),
    {
        let (b0, b1, b2, b3) = endian::u32_to_le(v);
        let buf: Vec<u8> = vec![b0, b1, b2, b3];
        proof {
            assert(buf@ =~= seq![b0, b1, b2, b3]);
        }
        self.write_all(buf.as_slice())
    }

    fn write_u32_be(&mut self, v: u32) -> (r: IoResult<()>)
        ensures
            old(self).appending() ==> r is Ok && final(self).sink() == old(self).sink()
                + endian::be32_bytes(v) && final(self).appending(),
    {
        let (b0, b1, b2, b3) = endian::u32_to_be(v);
        let buf: Vec<u8> = vec![b0, b1, b2, b3];
        proof {
            assert(buf@ =~= seq![b0, b1, b2, b3]);
        }
        self.write_all(buf.as_slice())
    }

    fn write_u24_be(&mut self, v: u32) -> (r: IoResult<()>)
        requires
            v < 16777216,
        ensures
            old(self).appending() ==> r is Ok && final(self).sink() == old(self).sink()
                + endian::be24_bytes(v) && final(self).appending(),
    {
        let (b0, b1, b2) = endian::u32_to_be24(v);
        let buf: Vec<u8> = vec![b0, b1, b2];
        proof {
            assert(buf@ =~= seq![b0, b1, b2]);
        }
        self.write_all(buf.as_slice())
    }
}

impl<T: MediaWrite> WritePrimitives for T {

}

/// A sink whose earlier bytes can be overwritten in place. Muxers whose
/// formats carry size fields ahead of the sized data use this to
/// back-patch those fields at `finalize`.
pub trait PatchSink: MediaWrite {
    /// Overwrites the four bytes at absolute offset `pos` of the sink with
    /// `v` in little-endian order; every other byte stays, and the writer
    /// keeps appending at its end.
    fn patch_u32_le(&mut self, pos: u64, v: u32) -> (r: IoResult<()>)
        ensures
            old(self).appending() && pos + 4 <= old(self).sink().len() ==> r is Ok
                && final(self).sink() == write_at(old(self).sink(), pos as int, endian::le32_bytes(v))
                && final(self).appending(),
    ;
}

/// A plain byte vector accepts every write at its end.
impl MediaWrite for Vec<u8> {
    open spec fn sink(&self) -> Seq<u8> {
        self@
    }

    open spec fn appending(&self) -> bool {
        true
    }

    fn write(&mut self, buf: &[u8]) -> (r: IoResult<usize>) {
        self.extend_from_slice(buf);
        proof {
            assert(self@ =~= old(self)@ + buf@.take(buf@.len() as int));
        }
        Ok(buf.len())
    }

    fn flush(&mut self) -> (r: IoResult<()>) {
        Ok(())
    }
}

/// A byte vector is patched by overwriting in place.
impl PatchSink for Vec<u8> {
    fn patch_u32_le(&mut self, pos: u64, v: u32) -> (r: IoResult<()>) {
        let len = self.len();
        if pos > len as u64 || (len as u64 - pos) < 4 {
            return Err(IoError::invalid_data("patch offset beyond end of output"));
        }
        let p = pos as usize;
        let (b0, b1, b2, b3) = endian::u32_to_le(v);
        self.set(p, b0);
        self.set(p + 1, b1);
        self.set(p + 2, b2);
        self.set(p + 3, b3);
        proof {
            assert(self@ =~= write_at(old(self)@, pos as int, endian::le32_bytes(v)));
        }
        Ok(())
    }
}

/// Accumulates small writes and forwards them to the inner writer when the
/// pending buffer would overflow its capacity, on an explicit `flush`, or
/// when a single write alone reaches the capacity. The sink seen through
/// the buffer is exactly what was written: buffering is transparent.
pub struct BufferedWriter<W> {
    pub inner: W,
    pub pending: Vec<u8>,
    pub cap: usize,
}

impl<W: MediaWrite> BufferedWriter<W> {
    /// Bytes accepted but not yet forwarded to the inner writer.
    pub open spec fn pending_view(&self) -> Seq<u8> {
        self.pending@
    }

    pub open spec fn inner_view(&self) -> Seq<u8> {
        self.inner.sink()
    }

    pub fn new(inner: W) -> (r: BufferedWriter<W>)
        ensures
            r.sink() == inner.sink(),
            r.appending() == inner.appending(),
            r.pending_view() == Seq::<u8>::empty(),
            r.capacity() == crate::io::reader::DEFAULT_BUFFER_SIZE,
    {
        BufferedWriter::with_capacity(crate::io::reader::DEFAULT_BUFFER_SIZE, inner)
    }

    pub fn with_capacity(capacity: usize, inner: W) -> (r: BufferedWriter<W>)
        ensures
            r.sink() == inner.sink(),
            r.appending() == inner.appending(),
            r.pending_view() == Seq::<u8>::empty(),
            r.capacity() == capacity,
    {
        let pending: Vec<u8> = Vec::new();
        proof {
            assert(inner.sink() + pending@ =~= inner.sink());
        }
        BufferedWriter { inner, pending, cap: capacity }
    }

    pub open spec fn spec_capacity(&self) -> usize {
        self.cap
    }

    #[verifier::when_used_as_spec(spec_capacity)]
    pub fn capacity(&self) -> (r: usize)
        ensures
            r == self.spec_capacity(),
    {
        self.cap
    }

    /// Hands the inner writer back; anything still pending stays unwritten,
    /// so flush first.
    pub fn into_inner(self) -> (r: W)
        ensures
            r.sink() == self.inner_view(),
            self.sink() == self.inner_view() + self.pending_view(),
            r.appending() == self.appending(),
    {
        self.inner
    }

    fn flush_pending(&mut self) -> (r: IoResult<()>)
        ensures
            final(self).pending_view() == Seq::<u8>::empty(),
            final(self).capacity() == old(self).capacity(),
            old(self).appending() ==> r is Ok && final(self).sink() == old(self).sink() && final(self).appending(),
    {
        let mut pend: Vec<u8> = Vec::new();
        core::mem::swap(&mut pend, &mut self.pending);
        let r = self.inner.write_all(pend.as_slice());
        proof {
            if old(self).appending() {
                assert(self.sink() =~= old(self).sink());
            }
        }
        match r {
            Ok(()) => Ok(()),
            Err(e) => Err(e),
        }
    }
}

impl<W: MediaWrite> MediaWrite for BufferedWriter<W> {
    open spec fn sink(&self) -> Seq<u8> {
        self.inner.sink() + self.pending@
    }

    open spec fn appending(&self) -> bool {
        self.inner.appending()
    }

    fn write(&mut self, buf: &[u8]) -> (r: IoResult<usize>) {
        if self.pending.len() > 0 && (buf.len() >= self.cap || self.pending.len() >= self.cap
            - buf.len()) {
            let r = self.flush_pending();
            match r {
                Ok(()) => (),
                Err(e) => {
                    return Err(e);
                },
            }
        }
        if buf.len() >= self.cap {
            let r = self.inner.write_all(buf);
            match r {
                Ok(()) => {
                    proof {
                        if old(self).appending() {
                            assert(self.sink() =~= old(self).sink() + buf@.take(
                                buf@.len() as int,
                            ));
                        }
                    }
                    Ok(buf.len())
                },
                Err(e) => Err(e),
            }
        } else {
            self.pending.extend_from_slice(buf);
            proof {
                if old(self).appending() {
                    assert(self.sink() =~= old(self).sink() + buf@.take(buf@.len() as int));
                }
            }
            Ok(buf.len())
        }
    }

    fn flush(&mut self) -> (r: IoResult<()>)
        ensures
            final(self).pending_view() == Seq::<u8>::empty(),
    {
        self.flush_pending()
    }
}

} // verus!
