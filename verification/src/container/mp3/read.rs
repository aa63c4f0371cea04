use vstd::prelude::*;

use crate::codecs::mp3::header::{find_sync, parse_header_spec, FrameHeader};
use crate::container::mp3::Mp3Format;
use crate::io::error::{IoError, IoResult};
use crate::io::reader::MediaRead;
use crate::model::packet::Packet;
use crate::model::time::Timebase;
use crate::model::traits::Demuxer;

verus! {

/// Scans the stream for the first parseable frame header and then hands
/// out one frame per packet.
pub struct Mp3Reader<R> {
    pub reader: R,
    pub buffer: Vec<u8>,
    pub pos: usize,
    pub format: Mp3Format,
    pub timebase: Timebase,
    pub frame_index: u64,
}

impl<R: MediaRead> Mp3Reader<R> {
    /// Drains the source and synchronises on the first frame; exactly the
    /// streams without one are `InvalidData`.
    #[verifier::loop_isolation(false)]
    pub fn new(reader: R) -> (r: IoResult<Mp3Reader<R>>)
        ensures
            r is Ok <==> exists|j: int| crate::codecs::mp3::header::sync_at(reader.stream(), j),
            r matches Ok(w) ==> w.pos < w.buffer@.len() && parse_header_spec(
                w.buffer@.skip(w.pos as int),
            ) is Some && w.buffer@ == reader.stream() && crate::codecs::mp3::header::sync_at(
                reader.stream(),
                w.pos as int,
            ) && (forall|j: int|
                0 <= j < w.pos ==> !crate::codecs::mp3::header::sync_at(reader.stream(), j)),
            r matches Err(e) ==> e.spec_kind() == crate::io::error::IoErrorKind::InvalidData,
    {
        let mut rd = reader;
        let mut buffer: Vec<u8> = Vec::new();
        let mut drained = false;
        while !drained
            invariant
                drained ==> rd.stream().len() == 0,
                buffer@ + rd.stream() == reader.stream(),
            decreases rd.stream().len() + (if drained {
                0int
            } else {
                1int
            }),
        {
            let mut buf: Vec<u8> = vec![0u8; 4096];
            let n = match rd.read(&mut buf) {
                Ok(n) => n,
                Err(e) => {
                    return Err(e);
                },
            };
            if n == 0 {
                drained = true;
            } else {
                buf.truncate(n);
                let mut tail = buf;
                buffer.append(&mut tail);
                proof {
                    assert(buffer@ + rd.stream() =~= reader.stream());
                }
            }
        }
        proof {
            assert(buffer@ =~= reader.stream());
        }
        let start = match find_sync(buffer.as_slice()) {
            Some(i) => i,
            None => {
                return Err(IoError::invalid_data("no frame sync found"));
            },
        };
        let tail = vstd::slice::slice_subrange(buffer.as_slice(), start, buffer.len());
        proof {
            assert(tail@ =~= buffer@.skip(start as int));
        }
        let header = match FrameHeader::parse(tail) {
            Some(h) => h,
            None => {
                return Err(IoError::invalid_data("no frame sync found"));
            },
        };
        let format = Mp3Format {
            version: header.version,
            layer: header.layer,
            channels: header.channels,
            sample_rate: header.sample_rate,
            bitrate: header.bitrate,
            channel_mode: header.channel_mode,
        };
        let timebase = Timebase::new(
            1,
            if header.sample_rate == 0 {
                1
            } else {
                header.sample_rate
            },
        );
        Ok(Mp3Reader { reader: rd, buffer, pos: start, format, timebase, frame_index: 0 })
    }

    pub fn format(&self) -> (r: Mp3Format)
        ensures
            r == self.format,
    {
        self.format
    }
}

impl<R: MediaRead> Demuxer for Mp3Reader<R> {
    /// One frame per packet: the bytes from the current sync up to the
    /// declared frame size (or whatever remains). `None` at the end; a
    /// drained buffer is never an error.
    #[verifier::loop_isolation(false)]
    fn read_packet(&mut self) -> (r: IoResult<Option<Packet>>)
        ensures
            r is Ok,
            r matches Ok(p) ==> match p {
                None => old(self).pos >= old(self).buffer@.len() && *final(self) == *old(self),
                Some(pkt) => {
                    &&& pkt.data@.len() > 0
                    &&& old(self).pos < final(self).pos <= old(self).buffer@.len()
                    &&& pkt.data@ == old(self).buffer@.subrange(
                        old(self).pos as int,
                        final(self).pos as int,
                    )
                    &&& final(self).buffer == old(self).buffer
                    &&& ({
                        let parsed = parse_header_spec(
                            old(self).buffer@.skip(old(self).pos as int),
                        );
                        (parsed is Some && 1 <= parsed->Some_0.frame_size <= old(
                            self,
                        ).buffer@.len() - old(self).pos) ==> final(self).pos == old(self).pos
                            + parsed->Some_0.frame_size
                    })
                },
            },
    {
        let n = self.buffer.len();
        if self.pos >= n {
            return Ok(None);
        }
        let tail = vstd::slice::slice_subrange(self.buffer.as_slice(), self.pos, n);
        proof {
            assert(tail@ =~= self.buffer@.skip(self.pos as int));
        }
        let take: usize = match FrameHeader::parse(tail) {
            Some(h) => {
                if h.frame_size >= 1 && h.frame_size <= n - self.pos {
                    h.frame_size
                } else {
                    n - self.pos
                }
            },
            None => n - self.pos,
        };
        let take = if take == 0 {
            n - self.pos
        } else {
            take
        };
        let data: Vec<u8> = vstd::slice::slice_to_vec(
            vstd::slice::slice_subrange(self.buffer.as_slice(), self.pos, self.pos + take),
        );
        let pts: i64 = if self.frame_index > i64::MAX as u64 {
            i64::MAX
        } else {
            self.frame_index as i64
        };
        self.pos = self.pos + take;
        self.frame_index = match self.frame_index.checked_add(1) {
            Some(v) => v,
            None => u64::MAX,
        };
        let packet = Packet::new(data, 0, self.timebase).with_pts(pts);
        Ok(Some(packet))
    }

    fn stream_count(&self) -> (r: usize)
        ensures
            r == 1,
    {
        1
    }
}

} // verus!
