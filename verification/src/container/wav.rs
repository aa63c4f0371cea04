pub mod read;
pub mod write;

pub use read::WavReader;
pub use write::WavWriter;

use vstd::prelude::*;

use crate::io::endian;

verus! {

/// The shape of a WAV file's PCM payload. Only 16-bit input is accepted by
/// the reader.
#[derive(Debug, Clone, Copy, PartialEq, Eq, Structural)]
pub struct WavFormat {
    pub channels: u8,
    pub sample_rate: u32,
    pub bit_depth: u16,
}

impl WavFormat {
    /// A format the reader can produce: 16-bit samples, at least one
    /// channel, a positive rate.
    pub open spec fn wf(self) -> bool {
        self.bit_depth == 16 && self.channels > 0 && self.sample_rate > 0
    }

    pub fn bytes_per_sample(&self) -> (r: usize)
        ensures
            r == self.bit_depth / 8,
    {
        (self.bit_depth / 8) as usize
    }

    /// One interleaved sample frame; for 16-bit data this is two bytes per
    /// channel.
    pub fn bytes_per_frame(&self) -> (r: usize)
        ensures
            r == (self.bit_depth / 8) * self.channels,
            self.bit_depth == 16 ==> r == 2 * self.channels,
    {
        proof {
            vstd::arithmetic::mul::lemma_mul_upper_bound(
                self.bit_depth as int / 8,
                8191,
                self.channels as int,
                255,
            );
        }
        self.bytes_per_sample() * self.channels as usize
    }
}

/// The 44-byte canonical header this crate writes: `RIFF` size `WAVE`,
/// a 16-byte `fmt ` chunk describing plain PCM, then the `data` chunk
/// header carrying `data_size`.
pub open spec fn wav_header_bytes(format: WavFormat, data_size: u32) -> Seq<u8>
    recommends
        data_size + 36 <= u32::MAX,
{
    seq![0x52u8, 0x49u8, 0x46u8, 0x46u8] + endian::le32_bytes((36 + data_size) as u32) + seq![
        0x57u8,
        0x41u8,
        0x56u8,
        0x45u8,
    ] + seq![0x66u8, 0x6du8, 0x74u8, 0x20u8] + endian::le32_bytes(16u32) + endian::le16_bytes(1u16)
        + endian::le16_bytes(format.channels as u16) + endian::le32_bytes(format.sample_rate)
        + endian::le32_bytes((format.sample_rate * ((format.bit_depth / 8) * format.channels))
        as u32) + endian::le16_bytes(((format.bit_depth / 8) * format.channels) as u16)
        + endian::le16_bytes(format.bit_depth) + seq![0x64u8, 0x61u8, 0x74u8, 0x61u8]
        + endian::le32_bytes(data_size)
}

/// A whole WAV file: header then payload.
pub open spec fn wav_file_bytes(format: WavFormat, payload: Seq<u8>) -> Seq<u8> {
    wav_header_bytes(format, payload.len() as u32) + payload
}

/// `RIFF....WAVE` magic over the first twelve bytes.
pub open spec fn is_riff_wave(b: Seq<u8>) -> bool {
    &&& b.len() >= 12
    &&& b[0] == 0x52u8
    &&& b[1] == 0x49u8
    &&& b[2] == 0x46u8
    &&& b[3] == 0x46u8
    &&& b[8] == 0x57u8
    &&& b[9] == 0x41u8
    &&& b[10] == 0x56u8
    &&& b[11] == 0x45u8
}

pub open spec fn chunk_size_of(b: Seq<u8>) -> int
    recommends
        b.len() >= 8,
{
    endian::le32(b[4], b[5], b[6], b[7])
}

pub open spec fn is_fmt_chunk(b: Seq<u8>) -> bool
    recommends
        b.len() >= 4,
{
    b[0] == 0x66u8 && b[1] == 0x6du8 && b[2] == 0x74u8 && b[3] == 0x20u8
}

pub open spec fn is_data_chunk(b: Seq<u8>) -> bool
    recommends
        b.len() >= 4,
{
    b[0] == 0x64u8 && b[1] == 0x61u8 && b[2] == 0x74u8 && b[3] == 0x61u8
}

/// Walks the chunks after the `RIFF....WAVE` preamble until the `fmt `
/// chunk, reading its PCM fields; yields the format and the bytes after the
/// chunk, or nothing when the stream ends first or the format is one the
/// reader rejects (a depth other than 16 bits, no channels, a zero rate).
pub open spec fn parse_fmt(b: Seq<u8>) -> Option<(WavFormat, Seq<u8>)>
    decreases b.len(),
{
    if b.len() < 8 {
        None
    } else {
        let sz = chunk_size_of(b);
        if 8 + sz > b.len() {
            None
        } else if is_fmt_chunk(b) {
            if sz < 16 {
                None
            } else {
                let body = b.subrange(8, 8 + sz);
                let format = WavFormat {
                    channels: body[2],
                    sample_rate: endian::le32(body[4], body[5], body[6], body[7]) as u32,
                    bit_depth: endian::le16(body[14], body[15]) as u16,
                };
                if format.wf() {
                    Some((format, b.skip(8 + sz)))
                } else {
                    None
                }
            }
        } else {
            parse_fmt(b.skip(8 + sz))
        }
    }
}

/// Walks the chunks after the `fmt ` chunk until the `data` chunk; yields
/// its declared size and the payload bytes that follow the chunk header.
pub open spec fn parse_data(b: Seq<u8>) -> Option<(int, Seq<u8>)>
    decreases b.len(),
{
    if b.len() < 8 {
        None
    } else {
        let sz = chunk_size_of(b);
        if is_data_chunk(b) {
            Some((sz, b.skip(8)))
        } else if 8 + sz > b.len() {
            None
        } else {
            parse_data(b.skip(8 + sz))
        }
    }
}

/// The whole open: magic, format chunk, data chunk. Yields the format, the
/// declared payload size, and the stream positioned at the payload.
pub open spec fn wav_parse(b: Seq<u8>) -> Option<(WavFormat, int, Seq<u8>)> {
    if !is_riff_wave(b) {
        None
    } else {
        match parse_fmt(b.skip(12)) {
            None => None,
            Some((format, rest)) => match parse_data(rest) {
                None => None,
                Some((size, payload)) => Some((format, size, payload)),
            },
        }
    }
}

} // verus!
