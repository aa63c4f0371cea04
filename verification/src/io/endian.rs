use vstd::prelude::*;

verus! {

// Every multibyte field in the containers and codecs goes through these
// helpers; nothing is reinterpreted at host endianness.

/// Value of two bytes read little-endian.
pub open spec fn le16(b0: u8, b1: u8) -> int {
    b0 + 256 * b1
}

/// Value of two bytes read big-endian.
pub open spec fn be16(b0: u8, b1: u8) -> int {
    b1 + 256 * b0
}

/// Value of four bytes read little-endian.
pub open spec fn le32(b0: u8, b1: u8, b2: u8, b3: u8) -> int {
    b0 + 256 * b1 + 65536 * b2 + 16777216 * b3
}

/// Value of four bytes read big-endian.
pub open spec fn be32(b0: u8, b1: u8, b2: u8, b3: u8) -> int {
    b3 + 256 * b2 + 65536 * b1 + 16777216 * b0
}

/// Value of three bytes read big-endian.
pub open spec fn be24(b0: u8, b1: u8, b2: u8) -> int {
    b2 + 256 * b1 + 65536 * b0
}

/// Value of two little-endian bytes as a signed 16-bit sample.
pub open spec fn le16_signed(b0: u8, b1: u8) -> int {
    if le16(b0, b1) >= 32768 {
        le16(b0, b1) - 65536
    } else {
        le16(b0, b1)
    }
}

/// The base-256 digit of `v` at position `i` (little-endian digit order).
pub open spec fn byte_of(v: int, i: int) -> u8 {
    ((v / vstd::arithmetic::power::pow(256, i as nat)) % 256) as u8
}

/// The two bytes of a 16-bit value in little-endian order.
pub open spec fn le16_bytes(v: u16) -> Seq<u8> {
    seq![byte_of(v as int, 0), byte_of(v as int, 1)]
}

/// The two bytes of a 16-bit value in big-endian order.
pub open spec fn be16_bytes(v: u16) -> Seq<u8> {
    seq![byte_of(v as int, 1), byte_of(v as int, 0)]
}

/// The two bytes of a signed 16-bit sample in little-endian order
/// (two's complement).
pub open spec fn le16_signed_bytes(v: i16) -> Seq<u8> {
    if v < 0 {
        le16_bytes((v + 65536) as u16)
    } else {
        le16_bytes(v as u16)
    }
}

/// The four bytes of a 32-bit value in little-endian order.
pub open spec fn le32_bytes(v: u32) -> Seq<u8> {
    seq![byte_of(v as int, 0), byte_of(v as int, 1), byte_of(v as int, 2), byte_of(v as int, 3)]
}

/// The four bytes of a 32-bit value in big-endian order.
pub open spec fn be32_bytes(v: u32) -> Seq<u8> {
    seq![byte_of(v as int, 3), byte_of(v as int, 2), byte_of(v as int, 1), byte_of(v as int, 0)]
}

/// The low three bytes of a value in big-endian order.
pub open spec fn be24_bytes(v: u32) -> Seq<u8> {
    seq![byte_of(v as int, 2), byte_of(v as int, 1), byte_of(v as int, 0)]
}

pub fn u16_from_le(b0: u8, b1: u8) -> (r: u16)
    ensures
        r == le16(b0, b1),
{
    b0 as u16 + 256 * (b1 as u16)
}

pub fn u16_from_be(b0: u8, b1: u8) -> (r: u16)
    ensures
        r == be16(b0, b1),
{
    b1 as u16 + 256 * (b0 as u16)
}

pub fn u32_from_le(b0: u8, b1: u8, b2: u8, b3: u8) -> (r: u32)
    ensures
        r == le32(b0, b1, b2, b3),
{
    b0 as u32 + 256 * (b1 as u32) + 65536 * (b2 as u32) + 16777216 * (b3 as u32)
}

pub fn u32_from_be(b0: u8, b1: u8, b2: u8, b3: u8) -> (r: u32)
    ensures
        r == be32(b0, b1, b2, b3),
{
    b3 as u32 + 256 * (b2 as u32) + 65536 * (b1 as u32) + 16777216 * (b0 as u32)
}

pub fn u32_from_be24(b0: u8, b1: u8, b2: u8) -> (r: u32)
    ensures
        r == be24(b0, b1, b2),
{
    b2 as u32 + 256 * (b1 as u32) + 65536 * (b0 as u32)
}

pub fn i16_from_le(b0: u8, b1: u8) -> (r: i16)
    ensures
        r == le16_signed(b0, b1),
{
    let u: u32 = b0 as u32 + 256 * (b1 as u32);
    if u >= 32768 {
        (u as i32 - 65536) as i16
    } else {
        u as i16
    }
}

/// Power-of-256 digits at the four byte positions, spelled out once so the
/// executable helpers and the `byte_of` spec agree.
proof fn lemma_pow_digits()
    ensures
        vstd::arithmetic::power::pow(256, 0) == 1,
        vstd::arithmetic::power::pow(256, 1) == 256,
        vstd::arithmetic::power::pow(256, 2) == 65536,
        vstd::arithmetic::power::pow(256, 3) == 16777216,
{
    vstd::arithmetic::power::lemma_pow0(256);
    vstd::arithmetic::power::lemma_pow1(256);
    assert(vstd::arithmetic::power::pow(256, 2) == 256 * vstd::arithmetic::power::pow(256, 1))
        by {
        vstd::arithmetic::power::lemma_pow_adds(256, 1, 1);
        vstd::arithmetic::power::lemma_pow1(256);
    }
    assert(vstd::arithmetic::power::pow(256, 3) == 256 * vstd::arithmetic::power::pow(256, 2))
        by {
        vstd::arithmetic::power::lemma_pow_adds(256, 1, 2);
        vstd::arithmetic::power::lemma_pow1(256);
    }
}

/// Reading back the little-endian bytes of a 16-bit value gives the value.
pub proof fn lemma_le16_roundtrip(v: u16)
    ensures
        le16(le16_bytes(v)[0], le16_bytes(v)[1]) == v,
{
    lemma_pow_digits();
    vstd::arithmetic::div_mod::lemma_fundamental_div_mod(v as int, 256);
    assert((v as int / 256) % 256 == v as int / 256) by (nonlinear_arith)
        requires
            0 <= v < 65536,
    ;
}

/// Reading back the little-endian bytes of a 32-bit value gives the value.
pub proof fn lemma_le32_roundtrip(v: u32)
    ensures
        le32(le32_bytes(v)[0], le32_bytes(v)[1], le32_bytes(v)[2], le32_bytes(v)[3]) == v,
{
    lemma_pow_digits();
    let x = v as int;
    let a = x / 256;
    let b = x / 65536;
    let c = x / 16777216;
    assert(a / 256 == b && b / 256 == c && c % 256 == c) by (nonlinear_arith)
        requires
            0 <= x < 0x1_0000_0000 && a == x / 256 && b == x / 65536 && c == x / 16777216,
    ;
    vstd::arithmetic::div_mod::lemma_fundamental_div_mod(x, 256);
    vstd::arithmetic::div_mod::lemma_fundamental_div_mod(a, 256);
    vstd::arithmetic::div_mod::lemma_fundamental_div_mod(b, 256);
}

/// Reading back the two's-complement bytes of a sample gives the sample.
pub proof fn lemma_le16_signed_roundtrip(v: i16)
    ensures
        le16_signed(le16_signed_bytes(v)[0], le16_signed_bytes(v)[1]) == v,
{
    if v < 0 {
        lemma_le16_roundtrip((v + 65536) as u16);
    } else {
        lemma_le16_roundtrip(v as u16);
    }
}

/// A sample's bytes are the only bytes carrying its value.
pub proof fn lemma_le16_signed_bytes_inverse(b0: u8, b1: u8)
    ensures
        le16_signed_bytes(le16_signed(b0, b1) as i16) == seq![b0, b1],
{
    lemma_pow_digits();
    let v = le16(b0, b1);
    vstd::arithmetic::div_mod::lemma_fundamental_div_mod_converse(v, 256, b1 as int, b0 as int);
    vstd::arithmetic::div_mod::lemma_small_mod(b1 as nat, 256);
    assert(le16_bytes(v as u16) =~= seq![b0, b1]);
}

pub fn u16_to_le(v: u16) -> (r: (u8, u8))
    ensures
        seq![r.0, r.1] == le16_bytes(v),
        le16(r.0, r.1) == v,
{
    let b0: u8 = (v % 256) as u8;
    let b1: u8 = (v / 256) as u8;
    proof {
        lemma_pow_digits();
        lemma_le16_roundtrip(v);
        assert((v as int / 256) % 256 == v as int / 256) by (nonlinear_arith)
            requires
                0 <= v < 65536,
        ;
        assert(seq![b0, b1] =~= le16_bytes(v));
    }
    (b0, b1)
}

pub fn u16_to_be(v: u16) -> (r: (u8, u8))
    ensures
        seq![r.0, r.1] == be16_bytes(v),
        be16(r.0, r.1) == v,
{
    let (b0, b1) = u16_to_le(v);
    proof {
        assert(seq![b1, b0] =~= be16_bytes(v));
    }
    (b1, b0)
}

pub fn i16_to_le(v: i16) -> (r: (u8, u8))
    ensures
        seq![r.0, r.1] == le16_signed_bytes(v),
        le16_signed(r.0, r.1) == v,
{
    let u: u16 = if v < 0 {
        (v as i32 + 65536) as u16
    } else {
        v as u16
    };
    let r = u16_to_le(u);
    proof {
        lemma_le16_roundtrip(u);
    }
    r
}

pub fn u32_to_le(v: u32) -> (r: (u8, u8, u8, u8))
    ensures
        seq![r.0, r.1, r.2, r.3] == le32_bytes(v),
        le32(r.0, r.1, r.2, r.3) == v,
{
    let b0: u8 = (v % 256) as u8;
    let b1: u8 = ((v / 256) % 256) as u8;
    let b2: u8 = ((v / 65536) % 256) as u8;
    let b3: u8 = (v / 16777216) as u8;
    proof {
        lemma_pow_digits();
        lemma_le32_roundtrip(v);
        assert((v as int / 16777216) % 256 == v as int / 16777216) by (nonlinear_arith)
            requires
                0 <= v < 0x1_0000_0000,
        ;
        assert(seq![b0, b1, b2, b3] =~= le32_bytes(v));
    }
    (b0, b1, b2, b3)
}

pub fn u32_to_be(v: u32) -> (r: (u8, u8, u8, u8))
    ensures
        seq![r.0, r.1, r.2, r.3] == be32_bytes(v),
        be32(r.0, r.1, r.2, r.3) == v,
{
    let (b0, b1, b2, b3) = u32_to_le(v);
    proof {
        assert(seq![b3, b2, b1, b0] =~= be32_bytes(v));
    }
    (b3, b2, b1, b0)
}

/// The eight bytes of a 64-bit value in big-endian order: the two 32-bit
/// halves side by side.
pub open spec fn be64_bytes(v: u64) -> Seq<u8> {
    be32_bytes((v / 0x1_0000_0000) as u32) + be32_bytes((v % 0x1_0000_0000) as u32)
}

pub fn u64_to_be(v: u64) -> (r: Vec<u8>)
    ensures
        r@ == be64_bytes(v),
{
    let hi: u32 = (v / 0x1_0000_0000) as u32;
    let lo: u32 = (v % 0x1_0000_0000) as u32;
    let (h0, h1, h2, h3) = u32_to_be(hi);
    let (l0, l1, l2, l3) = u32_to_be(lo);
    let out: Vec<u8> = vec![h0, h1, h2, h3, l0, l1, l2, l3];
    proof {
        assert(out@ =~= be64_bytes(v));
    }
    out
}

pub fn u32_to_be24(v: u32) -> (r: (u8, u8, u8))
    requires
        v < 16777216,
    ensures
        seq![r.0, r.1, r.2] == be24_bytes(v),
        be24(r.0, r.1, r.2) == v,
{
    let (b0, b1, b2, _b3) = u32_to_le(v);
    proof {
        lemma_le32_roundtrip(v);
        assert(seq![b2, b1, b0] =~= be24_bytes(v));
        assert(v as int / 16777216 == 0) by (nonlinear_arith)
            requires
                0 <= v < 16777216,
        ;
    }
    (b2, b1, b0)
}

} // verus!
