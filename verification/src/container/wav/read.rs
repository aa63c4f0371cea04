use vstd::prelude::*;

use crate::container::wav::{
    is_data_chunk, is_fmt_chunk, is_riff_wave, parse_data, parse_fmt, wav_parse, WavFormat,
};
use crate::io::endian;
use crate::io::error::{IoError, IoResult};
use crate::io::reader::{MediaRead, ReadPrimitives};
use crate::model::packet::Packet;
use crate::model::time::Timebase;
use crate::model::traits::Demuxer;

verus! {

/// Reads a 16-bit PCM WAV stream: the header at construction, then the
/// payload in packets of at most 4096 bytes.
pub struct WavReader<R> {
    pub reader: R,
    pub format: WavFormat,
    pub timebase: Timebase,
    pub data_remaining: u64,
    pub bytes_delivered: u64,
}

impl<R: MediaRead> WavReader<R> {
    /// Established by `new` and kept by every read.
    pub open spec fn wf(&self) -> bool {
        &&& self.format.wf()
        &&& self.timebase == (Timebase { num: 1, den: self.format.sample_rate })
        &&& self.bytes_delivered + self.data_remaining <= u32::MAX
    }

    /// The payload bytes this reader will still deliver: the head of the
    /// remaining stream, bounded by what the `data` chunk declared.
    pub open spec fn payload_left(&self) -> Seq<u8> {
        if self.data_remaining <= self.reader.stream().len() {
            self.reader.stream().take(self.data_remaining as int)
        } else {
            self.reader.stream()
        }
    }

    /// Opens the stream: validates `RIFF....WAVE`, walks the chunks to the
    /// `fmt ` chunk (rejecting anything but 16-bit PCM), then to the `data`
    /// chunk. Succeeds exactly when `wav_parse` accepts the stream.
    #[verifier::loop_isolation(false)]
    pub fn new(reader: R) -> (r: IoResult<WavReader<R>>)
        ensures
            r is Ok <==> wav_parse(reader.stream()) is Some,
            r matches Ok(w) ==> {
                &&& wav_parse(reader.stream()) matches Some((f, size, payload)) && w.format == f
                    && w.data_remaining == size && w.reader.stream() == payload
                &&& w.wf()
                &&& w.bytes_delivered == 0
            },
    {
        let mut rd = reader;
        let ghost s0 = rd.stream();
        let mut head: Vec<u8> = vec![0u8; 12];
        match rd.read_exact(&mut head) {
            Ok(()) => (),
            Err(_) => {
                return Err(IoError::invalid_data("not a RIFF file"));
            },
        }
        if !(head[0] == 0x52 && head[1] == 0x49 && head[2] == 0x46 && head[3] == 0x46) {
            return Err(IoError::invalid_data("not a RIFF file"));
        }
        if !(head[8] == 0x57 && head[9] == 0x41 && head[10] == 0x56 && head[11] == 0x45) {
            return Err(IoError::invalid_data("not a WAVE file"));
        }
        proof {
            assert(is_riff_wave(s0));
            assert(rd.stream() =~= s0.skip(12));
        }
        let format = match Self::read_fmt_chunk(&mut rd) {
            Ok(f) => f,
            Err(e) => {
                return Err(e);
            },
        };
        let data_size = match Self::read_data_chunk(&mut rd) {
            Ok(s) => s,
            Err(e) => {
                return Err(e);
            },
        };
        Ok(
            WavReader {
                reader: rd,
                format,
                timebase: Timebase::new(1, format.sample_rate),
                data_remaining: data_size as u64,
                bytes_delivered: 0,
            },
        )
    }

    /// Walks chunks up to and through the `fmt ` chunk, as `parse_fmt`
    /// describes.
    #[verifier::loop_isolation(false)]
    fn read_fmt_chunk(rd: &mut R) -> (r: IoResult<WavFormat>)
        ensures
            r is Ok <==> parse_fmt(old(rd).stream()) is Some,
            r matches Ok(f) ==> parse_fmt(old(rd).stream()) == Some((f, final(rd).stream()))
                && f.wf(),
    {
        loop
            invariant
                parse_fmt(rd.stream()) == parse_fmt(old(rd).stream()),
            decreases rd.stream().len(),
        {
            let ghost it = rd.stream();
            let mut chunk_header: Vec<u8> = vec![0u8; 8];
            match rd.read_exact(&mut chunk_header) {
                Ok(()) => (),
                Err(e) => {
                    return Err(e);
                },
            }
            let chunk_size = endian::u32_from_le(
                chunk_header[4],
                chunk_header[5],
                chunk_header[6],
                chunk_header[7],
            );
            let mut body: Vec<u8> = vec![0u8; chunk_size as usize];
            match rd.read_exact(&mut body) {
                Ok(()) => (),
                Err(e) => {
                    return Err(e);
                },
            }
            proof {
                assert(rd.stream() =~= it.skip(8 + chunk_size as int));
            }
            if chunk_header[0] == 0x66 && chunk_header[1] == 0x6d && chunk_header[2] == 0x74
                && chunk_header[3] == 0x20 {
                if chunk_size < 16 {
                    return Err(IoError::invalid_data("fmt chunk too small"));
                }
                let channels = body[2];
                let sample_rate = endian::u32_from_le(body[4], body[5], body[6], body[7]);
                let bit_depth = endian::u16_from_le(body[14], body[15]);
                if bit_depth != 16 {
                    return Err(IoError::invalid_data("only 16-bit PCM supported"));
                }
                if channels == 0 {
                    return Err(IoError::invalid_data("no channels"));
                }
                if sample_rate == 0 {
                    return Err(IoError::invalid_data("zero sample rate"));
                }
                let format = WavFormat { channels, sample_rate, bit_depth };
                proof {
                    let body_spec = it.subrange(8, 8 + chunk_size as int);
                    assert(forall|j: int| 0 <= j < chunk_size ==> body@[j] == body_spec[j]);
                    assert(parse_fmt(it) == Some((format, it.skip(8 + chunk_size as int))));
                }
                return Ok(format);
            }
            proof {
                assert(parse_fmt(it) == parse_fmt(it.skip(8 + chunk_size as int)));
            }
        }
    }

    /// Walks chunks up to the `data` chunk header, as `parse_data`
    /// describes.
    #[verifier::loop_isolation(false)]
    fn read_data_chunk(rd: &mut R) -> (r: IoResult<u32>)
        ensures
            r is Ok <==> parse_data(old(rd).stream()) is Some,
            r matches Ok(s) ==> parse_data(old(rd).stream()) == Some(
                (s as int, final(rd).stream()),
            ),
    {
        loop
            invariant
                parse_data(rd.stream()) == parse_data(old(rd).stream()),
            decreases rd.stream().len(),
        {
            let ghost it = rd.stream();
            let mut chunk_header: Vec<u8> = vec![0u8; 8];
            match rd.read_exact(&mut chunk_header) {
                Ok(()) => (),
                Err(e) => {
                    return Err(e);
                },
            }
            let chunk_size = endian::u32_from_le(
                chunk_header[4],
                chunk_header[5],
                chunk_header[6],
                chunk_header[7],
            );
            if chunk_header[0] == 0x64 && chunk_header[1] == 0x61 && chunk_header[2] == 0x74
                && chunk_header[3] == 0x61 {
                proof {
                    assert(parse_data(it) == Some((chunk_size as int, it.skip(8))));
                }
                return Ok(chunk_size);
            }
            let mut body: Vec<u8> = vec![0u8; chunk_size as usize];
            match rd.read_exact(&mut body) {
                Ok(()) => (),
                Err(e) => {
                    return Err(e);
                },
            }
            proof {
                assert(rd.stream() =~= it.skip(8 + chunk_size as int));
                assert(parse_data(it) == parse_data(it.skip(8 + chunk_size as int)));
            }
        }
    }

    pub fn format(&self) -> (r: WavFormat)
        ensures
            r == self.format,
    {
        self.format
    }
}

impl<R: MediaRead> Demuxer for WavReader<R> {
    /// Yields the next packet of payload: a non-empty prefix of the bytes
    /// still owed, never more than 4096 at once, with its presentation
    /// timestamp counted in whole sample frames delivered so far. `None`
    /// exactly when the payload is done or the stream has ended early.
    #[verifier::loop_isolation(false)]
    fn read_packet(&mut self) -> (r: IoResult<Option<Packet>>)
        ensures
            old(self).wf() ==> {
                &&& final(self).wf()
                &&& final(self).format == old(self).format
                &&& r matches Ok(p)
                &&& (p is None <==> old(self).data_remaining == 0 || old(self).reader.stream().len() == 0)
                &&& (p matches Some(pkt) ==> {
                    &&& final(self).reader.stream().len() < old(self).reader.stream().len()
                    &&& 1 <= pkt.data@.len() <= 4096
                    &&& pkt.data@.len() <= old(self).payload_left().len()
                    &&& pkt.data@ == old(self).payload_left().take(pkt.data@.len() as int)
                    &&& final(self).payload_left() == old(self).payload_left().skip(
                        pkt.data@.len() as int,
                    )
                    &&& final(self).data_remaining == old(self).data_remaining - pkt.data@.len()
                    &&& final(self).bytes_delivered == old(self).bytes_delivered + pkt.data@.len()
                    &&& pkt.pts == old(self).bytes_delivered as int / (2 * old(self).format.channels as int)
                    &&& pkt.timebase == old(self).timebase
                    &&& pkt.stream_index == 0
                    &&& !pkt.keyframe && !pkt.discard && pkt.dts == 0
                })
                &&& (p is None ==> final(self).payload_left() == old(self).payload_left()
                    && final(self).reader.stream().len() <= old(self).reader.stream().len()
                    && final(self).data_remaining == old(self).data_remaining && final(self).bytes_delivered == old(self).bytes_delivered && final(self).timebase == old(self).timebase)
            },
    {
        if self.data_remaining == 0 {
            return Ok(None);
        }
        let want: usize = if self.data_remaining < 4096 {
            self.data_remaining as usize
        } else {
            4096
        };
        let mut buf: Vec<u8> = vec![0u8; want];
        let got = match self.reader.read(&mut buf) {
            Ok(n) => n,
            Err(e) => {
                return Err(e);
            },
        };
        if got == 0 {
            proof {
                assert(self.payload_left() =~= old(self).payload_left());
            }
            return Ok(None);
        }
        buf.truncate(got);
        self.data_remaining = self.data_remaining - got as u64;
        let bpf = self.format.bytes_per_frame() as u64;
        let pts: u64 = if bpf == 0 {
            0
        } else {
            self.bytes_delivered / bpf
        };
        self.bytes_delivered = match self.bytes_delivered.checked_add(got as u64) {
            Some(v) => v,
            None => u64::MAX,
        };
        proof {
            if old(self).wf() {
                assert(buf@ =~= old(self).payload_left().take(got as int));
                assert(self.payload_left() =~= old(self).payload_left().skip(got as int));
            }
        }
        let packet = Packet::new(buf, 0, self.timebase).with_pts(pts as i64);
        Ok(Some(packet))
    }

    fn stream_count(&self) -> (r: usize)
        ensures
            r == 1,
    {
        1
    }
}

} // verus!
