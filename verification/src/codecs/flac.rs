pub mod decode;
pub mod encode;

pub use decode::FlacDecoder;
pub use encode::FlacEncoder;

use vstd::prelude::*;

verus! {

/// The stream parameters the frame codec is driven by, as STREAMINFO
/// carries them.
#[derive(Debug, Clone, Copy, PartialEq, Eq, Structural)]
pub struct FlacStreamInfo {
    pub min_block_size: u16,
    pub max_block_size: u16,
    pub min_frame_size: u32,
    pub max_frame_size: u32,
    pub sample_rate: u32,
    pub channels: u8,
    pub bits_per_sample: u8,
    pub total_samples: u64,
}

/// The eight-bit header check, most significant bit first, polynomial
/// `x^8 + x^2 + x + 1`.
#[verifier::loop_isolation(false)]
pub fn crc8(data: &[u8]) -> u8 {
    let mut crc: u8 = 0;
    let mut i: usize = 0;
    let n = data.len();
    while i < n
        invariant
            n == data@.len(),
        decreases n - i,
    {
        crc = crc ^ *vstd::slice::slice_index_get(data, i);
        let mut bit: u8 = 0;
        while bit < 8
            decreases 8 - bit,
        {
            crc = if crc >= 128 {
                (((crc as u16 * 2) % 256) as u8) ^ 0x07
            } else {
                ((crc as u16 * 2) % 256) as u8
            };
            bit = bit + 1;
        }
        i = i + 1;
    }
    crc
}

/// The sixteen-bit frame check, most significant bit first, polynomial
/// `x^16 + x^15 + x^2 + 1`.
#[verifier::loop_isolation(false)]
pub fn crc16(data: &[u8]) -> u16 {
    let mut crc: u16 = 0;
    let mut i: usize = 0;
    let n = data.len();
    while i < n
        invariant
            n == data@.len(),
        decreases n - i,
    {
        crc = crc ^ (*vstd::slice::slice_index_get(data, i) as u16 * 256);
        let mut bit: u8 = 0;
        while bit < 8
            decreases 8 - bit,
        {
            crc = if crc >= 0x8000 {
                (((crc as u32 * 2) % 0x1_0000) as u16) ^ 0x8005
            } else {
                ((crc as u32 * 2) % 0x1_0000) as u16
            };
            bit = bit + 1;
        }
        i = i + 1;
    }
    crc
}

/// A frame number coded in the header's variable-length form: up to six
/// bytes of payload bits behind a length prefix.
#[verifier::loop_isolation(false)]
pub fn utf8_frame_number(n: u64) -> (r: Vec<u8>)
    ensures
        1 <= r@.len() <= 7,
{
    if n < 0x80 {
        let out: Vec<u8> = vec![(n % 128) as u8];
        return out;
    }
    // gather the six-bit tails, least significant first
    let mut tails: Vec<u8> = Vec::new();
    let mut rest: u64 = n;
    while rest >= 0x40 && tails.len() < 6
        invariant
            tails@.len() <= 6,
        decreases rest,
    {
        tails.push(0x80 + (rest % 64) as u8);
        rest = rest / 64;
    }
    let count = tails.len();
    // the lead byte announces how many continuation bytes follow
    let lead: u8 = if count == 1 {
        0xC0 + (rest % 32) as u8
    } else if count == 2 {
        0xE0 + (rest % 16) as u8
    } else if count == 3 {
        0xF0 + (rest % 8) as u8
    } else if count == 4 {
        0xF8 + (rest % 4) as u8
    } else if count == 5 {
        0xFC + (rest % 2) as u8
    } else {
        0xFE
    };
    let mut out: Vec<u8> = Vec::new();
    out.push(lead);
    let mut i: usize = count;
    while i > 0
        invariant
            i <= count,
            count == tails@.len() <= 6,
            out@.len() == 1 + count - i,
        decreases i,
    {
        i = i - 1;
        out.push(tails[i]);
    }
    out
}

} // verus!
