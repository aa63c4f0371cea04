pub mod alaw;
pub mod ulaw;

pub use alaw::{AlawDecoder, AlawEncoder};
pub use ulaw::{UlawDecoder, UlawEncoder};

use vstd::prelude::*;

verus! {

/// The segment of a biased µ-law magnitude: the position of its leading
/// bit above the mantissa.
pub open spec fn ulaw_exp(mag: int) -> int {
    if mag >= 0x4000 {
        7
    } else if mag >= 0x2000 {
        6
    } else if mag >= 0x1000 {
        5
    } else if mag >= 0x800 {
        4
    } else if mag >= 0x400 {
        3
    } else if mag >= 0x200 {
        2
    } else if mag >= 0x100 {
        1
    } else {
        0
    }
}

pub open spec fn pow2_small(e: int) -> int {
    if e <= 0 {
        1
    } else if e == 1 {
        2
    } else if e == 2 {
        4
    } else if e == 3 {
        8
    } else if e == 4 {
        16
    } else if e == 5 {
        32
    } else if e == 6 {
        64
    } else if e == 7 {
        128
    } else if e == 8 {
        256
    } else if e == 9 {
        512
    } else {
        1024
    }
}

/// µ-law: bias the magnitude, take the segment and four mantissa bits,
/// and complement the byte.
pub open spec fn ulaw_encode_spec(s: int) -> int {
    let sign: int = if s < 0 {
        0x80
    } else {
        0
    };
    let mag0: int = if s < 0 {
        -s
    } else {
        s
    };
    let clipped: int = if mag0 > 32635 {
        32635
    } else {
        mag0
    };
    let mag = clipped + 132;
    let e = ulaw_exp(mag);
    let mantissa = (mag / (8 * pow2_small(e))) % 16;
    255 - (sign + 16 * e + mantissa)
}

/// The inverse mapping: rebuild the biased magnitude from segment and
/// mantissa, remove the bias, apply the sign.
pub open spec fn ulaw_decode_spec(b: int) -> int {
    let u = 255 - b;
    let sign = u / 128;
    let e = (u / 16) % 8;
    let mantissa = u % 16;
    let mag = (mantissa * 8 + 132) * pow2_small(e) - 132;
    if sign == 1 {
        -mag
    } else {
        mag
    }
}

pub fn pow2_small_exec(e: u32) -> (r: u32)
    ensures
        r == pow2_small(e as int),
{
    if e == 0 {
        1
    } else if e == 1 {
        2
    } else if e == 2 {
        4
    } else if e == 3 {
        8
    } else if e == 4 {
        16
    } else if e == 5 {
        32
    } else if e == 6 {
        64
    } else if e == 7 {
        128
    } else if e == 8 {
        256
    } else if e == 9 {
        512
    } else {
        1024
    }
}

/// One sample to one µ-law byte, as `ulaw_encode_spec` says.
pub fn ulaw_encode(sample: i16) -> (r: u8)
    ensures
        r == ulaw_encode_spec(sample as int),
{
    let sign: u32 = if sample < 0 {
        0x80
    } else {
        0
    };
    let mag0: u32 = if sample < 0 {
        (-(sample as i32)) as u32
    } else {
        sample as u32
    };
    let clipped: u32 = if mag0 > 32635 {
        32635
    } else {
        mag0
    };
    let mag: u32 = clipped + 132;
    let e: u32 = if mag >= 0x4000 {
        7
    } else if mag >= 0x2000 {
        6
    } else if mag >= 0x1000 {
        5
    } else if mag >= 0x800 {
        4
    } else if mag >= 0x400 {
        3
    } else if mag >= 0x200 {
        2
    } else if mag >= 0x100 {
        1
    } else {
        0
    };
    let mantissa: u32 = (mag / (8 * pow2_small_exec(e))) % 16;
    (255 - (sign + 16 * e + mantissa)) as u8
}

/// One µ-law byte back to its sample, as `ulaw_decode_spec` says.
pub fn ulaw_decode(byte: u8) -> (r: i16)
    ensures
        r == ulaw_decode_spec(byte as int),
{
    let u: u32 = 255 - byte as u32;
    let sign: u32 = u / 128;
    let e: u32 = (u / 16) % 8;
    let mantissa: u32 = u % 16;
    let p: u32 = pow2_small_exec(e);
    proof {
        vstd::arithmetic::mul::lemma_mul_upper_bound(
            (mantissa * 8 + 132) as int,
            252,
            p as int,
            128,
        );
        vstd::arithmetic::mul::lemma_mul_nonnegative((mantissa * 8 + 132) as int, p as int);
    }
    let mag: i32 = ((mantissa * 8 + 132) * p) as i32 - 132;
    if sign == 1 {
        (-mag) as i16
    } else {
        mag as i16
    }
}

/// A-law: halve to thirteen bits, take segment and mantissa, and invert
/// the even bits.
pub open spec fn alaw_encode_spec(s: int) -> int {
    let mask: int = if s >= 0 {
        0xD5
    } else {
        0x55
    };
    let pcm0: int = if s >= 0 {
        s / 8
    } else {
        (-s - 1) / 8
    };
    let seg: int = if pcm0 <= 0x1F {
        0
    } else if pcm0 <= 0x3F {
        1
    } else if pcm0 <= 0x7F {
        2
    } else if pcm0 <= 0xFF {
        3
    } else if pcm0 <= 0x1FF {
        4
    } else if pcm0 <= 0x3FF {
        5
    } else if pcm0 <= 0x7FF {
        6
    } else if pcm0 <= 0xFFF {
        7
    } else {
        8
    };
    if seg == 8 {
        (0x7F as u8 ^ (mask as u8)) as int
    } else {
        let mant: int = if seg < 2 {
            (pcm0 / 2) % 16
        } else {
            (pcm0 / pow2_small(seg)) % 16
        };
        (((16 * seg + mant) as u8) ^ (mask as u8)) as int
    }
}

/// The inverse mapping: undo the even-bit inversion, rebuild the
/// magnitude from segment and mantissa, apply the sign.
pub open spec fn alaw_decode_spec(b: int) -> int {
    let a = (b as u8) ^ 0x55u8;
    let t = (a as int % 16) * 16;
    let seg = (a as int / 16) % 8;
    let mag = if seg == 0 {
        t + 8
    } else if seg == 1 {
        t + 0x108
    } else {
        (t + 0x108) * pow2_small(seg - 1)
    };
    if a as int / 128 == 1 {
        mag
    } else {
        -mag
    }
}

/// One sample to one A-law byte, as `alaw_encode_spec` says.
pub fn alaw_encode(sample: i16) -> (r: u8)
    ensures
        r == alaw_encode_spec(sample as int),
{
    let mask: u8 = if sample >= 0 {
        0xD5
    } else {
        0x55
    };
    let pcm0: u32 = if sample >= 0 {
        (sample as u32) / 8
    } else {
        ((-(sample as i32) - 1) as u32) / 8
    };
    let seg: u32 = if pcm0 <= 0x1F {
        0
    } else if pcm0 <= 0x3F {
        1
    } else if pcm0 <= 0x7F {
        2
    } else if pcm0 <= 0xFF {
        3
    } else if pcm0 <= 0x1FF {
        4
    } else if pcm0 <= 0x3FF {
        5
    } else if pcm0 <= 0x7FF {
        6
    } else if pcm0 <= 0xFFF {
        7
    } else {
        8
    };
    if seg == 8 {
        0x7F ^ mask
    } else {
        let mant: u32 = if seg < 2 {
            (pcm0 / 2) % 16
        } else {
            (pcm0 / pow2_small_exec(seg)) % 16
        };
        ((16 * seg + mant) as u8) ^ mask
    }
}

/// One A-law byte back to its sample, as `alaw_decode_spec` says.
pub fn alaw_decode(byte: u8) -> (r: i16)
    ensures
        r == alaw_decode_spec(byte as int),
{
    let a: u8 = byte ^ 0x55;
    let t: u32 = (a as u32 % 16) * 16;
    let seg: u32 = (a as u32 / 16) % 8;
    let mag: u32 = if seg == 0 {
        t + 8
    } else if seg == 1 {
        t + 0x108
    } else {
        let p: u32 = pow2_small_exec(seg - 1);
        proof {
            vstd::arithmetic::mul::lemma_mul_upper_bound((t + 0x108) as int, 504, p as int, 64);
            vstd::arithmetic::mul::lemma_mul_nonnegative((t + 0x108) as int, p as int);
        }
        (t + 0x108) * p
    };
    if a as u32 / 128 == 1 {
        mag as i16
    } else {
        -(mag as i16)
    }
}

} // verus!
