use vstd::prelude::*;

use crate::container::flac::FlacFormat;
use crate::io::endian;
use crate::io::error::{IoError, IoResult};
use crate::io::reader::{MediaRead, ReadPrimitives};
use crate::model::packet::Packet;
use crate::model::time::Timebase;
use crate::model::traits::Demuxer;

verus! {

/// Reads the signature and the STREAMINFO block, skips the remaining
/// metadata blocks, and hands out frame packets delimited at the frame
/// sync pattern.
pub struct FlacReader<R> {
    pub reader: R,
    pub format: FlacFormat,
    pub timebase: Timebase,
    pub pending: Vec<u8>,
    pub done: bool,
}

impl<R: MediaRead> FlacReader<R> {
    /// Opens the stream: `fLaC`, then STREAMINFO first, then any number of
    /// other metadata blocks until the one marked last.
    pub fn new(reader: R) -> (r: IoResult<FlacReader<R>>)
        ensures
            r matches Ok(w) ==> {
                &&& 1 <= w.format.channels <= 8 && 1 <= w.format.bits_per_sample <= 32
                &&& w.pending@.len() == 0
            },
    {
        let mut rd = reader;
        let mut magic: Vec<u8> = vec![0u8; 4];
        match rd.read_exact(&mut magic) {
            Ok(()) => (),
            Err(e) => {
                return Err(e);
            },
        }
        if !(magic[0] == 0x66 && magic[1] == 0x4c && magic[2] == 0x61 && magic[3] == 0x43) {
            return Err(IoError::invalid_data("not a FLAC stream"));
        }
        let mut format = FlacFormat::default();
        let mut first = true;
        loop
            invariant_except_break
                first ==> format.channels == 0,
            invariant
                !first ==> 1 <= format.channels <= 8 && 1 <= format.bits_per_sample <= 32,
            ensures
                !first && 1 <= format.channels <= 8 && 1 <= format.bits_per_sample <= 32,
            decreases rd.stream().len(),
        {
            let ghost pre = rd.stream().len();
            let mut header: Vec<u8> = vec![0u8; 4];
            match rd.read_exact(&mut header) {
                Ok(()) => (),
                Err(e) => {
                    return Err(e);
                },
            }
            let block_type = header[0] % 128;
            let is_last = header[0] >= 128;
            let size = endian::u32_from_be24(header[1], header[2], header[3]);
            if first {
                if block_type != 0 || size != 34 {
                    return Err(IoError::invalid_data("missing STREAMINFO"));
                }
                let mut body: Vec<u8> = vec![0u8; 34];
                match rd.read_exact(&mut body) {
                    Ok(()) => (),
                    Err(e) => {
                        return Err(e);
                    },
                }
                let min_block = endian::u16_from_be(body[0], body[1]);
                let max_block = endian::u16_from_be(body[2], body[3]);
                let min_frame = endian::u32_from_be24(body[4], body[5], body[6]);
                let max_frame = endian::u32_from_be24(body[7], body[8], body[9]);
                // the packed field: rate, channels, depth, total samples
                let b10 = body[10] as u64;
                let b11 = body[11] as u64;
                let b12 = body[12] as u64;
                let b13 = body[13] as u64;
                let sample_rate: u32 = (b10 * 4096 + b11 * 16 + b12 / 16) as u32;
                let channels: u8 = (((b12 / 2) % 8) + 1) as u8;
                let bits_per_sample: u8 = (((b12 % 2) * 16 + b13 / 16) + 1) as u8;
                let total_samples: u64 = (b13 % 16) * 0x1_0000_0000 + body[14] as u64 * 0x100_0000
                    + body[15] as u64 * 0x1_0000 + body[16] as u64 * 0x100 + body[17] as u64;
                let md5: [u8; 16] = [
                    body[18],
                    body[19],
                    body[20],
                    body[21],
                    body[22],
                    body[23],
                    body[24],
                    body[25],
                    body[26],
                    body[27],
                    body[28],
                    body[29],
                    body[30],
                    body[31],
                    body[32],
                    body[33],
                ];
                format = FlacFormat {
                    min_block_size: min_block,
                    max_block_size: max_block,
                    min_frame_size: min_frame,
                    max_frame_size: max_frame,
                    sample_rate,
                    channels,
                    bits_per_sample,
                    total_samples,
                    md5_signature: md5,
                };
                first = false;
            } else {
                let mut body: Vec<u8> = vec![0u8; size as usize];
                match rd.read_exact(&mut body) {
                    Ok(()) => (),
                    Err(e) => {
                        return Err(e);
                    },
                }
            }
            if is_last {
                break ;
            }
            proof {
                assert(rd.stream().len() < pre);
            }
        }
        let timebase = Timebase::new(
            1,
            if format.sample_rate == 0 {
                1
            } else {
                format.sample_rate
            },
        );
        Ok(FlacReader { reader: rd, format, timebase, pending: Vec::new(), done: false })
    }

    pub fn format(&self) -> (r: FlacFormat)
        ensures
            r == self.format,
    {
        self.format
    }
}

impl<R: MediaRead> Demuxer for FlacReader<R> {
    /// Hands out the stream's remaining bytes in frame-aligned chunks:
    /// every packet is a non-empty prefix of what is left, so the packets
    /// concatenate back to the stream. Frame boundaries are found at the
    /// sync pattern.
    #[verifier::loop_isolation(false)]
    fn read_packet(&mut self) -> (r: IoResult<Option<Packet>>)
        ensures
            r is Ok,
            r matches Ok(p) ==> match p {
                None => old(self).pending@.len() == 0 && old(self).reader.stream().len() == 0,
                Some(pkt) => pkt.data@.len() > 0 && old(self).pending@ + old(self).reader.stream() == pkt.data@ + (final(self).pending@ + final(self).reader.stream()),
            },
    {
        // pull everything the source still has, so the sync scan sees
        // whole frames
        let ghost whole = self.pending@ + self.reader.stream();
        let mut drained = false;
        while !drained
            invariant
                self.pending@ + self.reader.stream() == whole,
                drained ==> self.reader.stream().len() == 0,
            decreases self.reader.stream().len() + (if drained {
                0int
            } else {
                1int
            }),
        {
            let mut buf: Vec<u8> = vec![0u8; 4096];
            let n = match self.reader.read(&mut buf) {
                Ok(n) => n,
                Err(e) => {
                    return Err(e);
                },
            };
            if n == 0 {
                drained = true;
            } else {
                buf.truncate(n);
                let mut tail = buf;
                self.pending.append(&mut tail);
                proof {
                    assert(self.pending@ + self.reader.stream() =~= whole);
                }
            }
        }
        if self.pending.len() == 0 {
            return Ok(None);
        }
        // find the next frame boundary after the first byte
        let plen = self.pending.len();
        let mut cut: usize = plen;
        let mut i: usize = 1;
        while plen >= 2 && i < plen - 1
            invariant
                1 <= i,
                plen == self.pending@.len(),
                cut <= plen,
                cut >= 1,
                self.pending@ + self.reader.stream() == whole,
            decreases plen - i,
        {
            if self.pending[i] == 0xFF && (self.pending[i + 1] / 8) == 0x1F {
                cut = i;
                break ;
            }
            i = i + 1;
        }
        let n2 = self.pending.len();
        let rest: Vec<u8> = vstd::slice::slice_to_vec(
            vstd::slice::slice_subrange(self.pending.as_slice(), cut, n2),
        );
        self.pending.truncate(cut);
        let mut out: Vec<u8> = Vec::new();
        core::mem::swap(&mut out, &mut self.pending);
        self.pending = rest;
        proof {
            assert(out@ + (self.pending@ + self.reader.stream()) =~= whole);
        }
        let packet = Packet::new(out, 0, self.timebase);
        Ok(Some(packet))
    }

    fn stream_count(&self) -> (r: usize)
        ensures
            r == 1,
    {
        1
    }
}

} // verus!
