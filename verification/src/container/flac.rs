pub mod read;
pub mod write;

pub use read::FlacReader;
pub use write::FlacWriter;

use vstd::prelude::*;

use crate::io::endian;

verus! {

/// The STREAMINFO fields of a stream, as the metadata block stores them.
#[derive(Debug, Clone, Copy)]
pub struct FlacFormat {
    pub min_block_size: u16,
    pub max_block_size: u16,
    pub min_frame_size: u32,
    pub max_frame_size: u32,
    pub sample_rate: u32,
    pub channels: u8,
    pub bits_per_sample: u8,
    pub total_samples: u64,
    pub md5_signature: [u8; 16],
}

impl Default for FlacFormat {
    /// All counts zero: the shape of a stream not yet measured.
    fn default() -> (r: FlacFormat)
        ensures
            r.min_block_size == 0 && r.max_block_size == 0 && r.min_frame_size == 0
                && r.max_frame_size == 0 && r.sample_rate == 0 && r.channels == 0
                && r.bits_per_sample == 0 && r.total_samples == 0,
    {
        FlacFormat {
            min_block_size: 0,
            max_block_size: 0,
            min_frame_size: 0,
            max_frame_size: 0,
            sample_rate: 0,
            channels: 0,
            bits_per_sample: 0,
            total_samples: 0,
            md5_signature: [0, 0, 0, 0, 0, 0, 0, 0, 0, 0, 0, 0, 0, 0, 0, 0],
        }
    }
}

/// The fields fit the widths the block packs them into.
pub open spec fn flac_format_wf(f: FlacFormat) -> bool {
    &&& f.min_frame_size < 0x100_0000
    &&& f.max_frame_size < 0x100_0000
    &&& f.sample_rate < 0x10_0000
    &&& 1 <= f.channels <= 8
    &&& 1 <= f.bits_per_sample <= 32
    &&& f.total_samples < 0x10_0000_0000
}

/// The packed 64-bit field: twenty bits of rate, three of channels less
/// one, five of depth less one, thirty-six of sample count.
pub open spec fn flac_packed_field(f: FlacFormat) -> int {
    f.sample_rate * 0x1000_0000_0000 + (f.channels - 1) * 0x200_0000_0000 + (f.bits_per_sample
        - 1) * 0x10_0000_0000 + f.total_samples
}

/// The four-byte stream signature.
pub open spec fn flac_magic() -> Seq<u8> {
    seq![0x66u8, 0x4cu8, 0x61u8, 0x43u8]
}

/// The 34-byte STREAMINFO payload.
pub open spec fn streaminfo_bytes(f: FlacFormat) -> Seq<u8>
    recommends
        flac_format_wf(f),
{
    endian::be16_bytes(f.min_block_size) + endian::be16_bytes(f.max_block_size)
        + endian::be24_bytes(f.min_frame_size) + endian::be24_bytes(f.max_frame_size)
        + endian::be64_bytes(flac_packed_field(f) as u64) + f.md5_signature@
}

/// A whole header: the signature, then the STREAMINFO block marked last,
/// with its four-byte block header.
pub open spec fn flac_header_bytes(f: FlacFormat) -> Seq<u8> {
    flac_magic() + seq![0x80u8, 0x00u8, 0x00u8, 0x22u8] + streaminfo_bytes(f)
}

} // verus!
