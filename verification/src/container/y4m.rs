pub mod read;
pub mod write;

pub use read::Y4mReader;
pub use write::Y4mWriter;

use vstd::prelude::*;

verus! {

/// Chroma layout named by the `C` header parameter.
#[derive(Debug, Clone, Copy, PartialEq, Eq, Structural)]
pub enum Colorspace {
    C420,
    C420jpeg,
    C420paldv,
    C420mpeg2,
    C422,
    C444,
    Mono,
}

impl Colorspace {
    /// The token after `C`, as the header spells it.
    pub open spec fn spec_from_bytes(s: Seq<u8>) -> Option<Colorspace> {
        if s == seq![0x34u8, 0x32u8, 0x30u8] {
            Some(Colorspace::C420)
        } else if s == seq![0x34u8, 0x32u8, 0x30u8, 0x6au8, 0x70u8, 0x65u8, 0x67u8] {
            Some(Colorspace::C420jpeg)
        } else if s == seq![0x34u8, 0x32u8, 0x30u8, 0x70u8, 0x61u8, 0x6cu8, 0x64u8, 0x76u8] {
            Some(Colorspace::C420paldv)
        } else if s == seq![0x34u8, 0x32u8, 0x30u8, 0x6du8, 0x70u8, 0x65u8, 0x67u8, 0x32u8] {
            Some(Colorspace::C420mpeg2)
        } else if s == seq![0x34u8, 0x32u8, 0x32u8] {
            Some(Colorspace::C422)
        } else if s == seq![0x34u8, 0x34u8, 0x34u8] {
            Some(Colorspace::C444)
        } else if s == seq![0x6du8, 0x6fu8, 0x6eu8, 0x6fu8] {
            Some(Colorspace::Mono)
        } else {
            None
        }
    }
}

/// Scan order named by the `I` header parameter.
#[derive(Debug, Clone, Copy, PartialEq, Eq, Structural)]
pub enum Interlacing {
    Progressive,
    TopFieldFirst,
    BottomFieldFirst,
    Mixed,
}

impl Interlacing {
    pub open spec fn spec_from_byte(c: u8) -> Option<Interlacing> {
        if c == 0x70 {
            Some(Interlacing::Progressive)
        } else if c == 0x74 {
            Some(Interlacing::TopFieldFirst)
        } else if c == 0x62 {
            Some(Interlacing::BottomFieldFirst)
        } else if c == 0x6d {
            Some(Interlacing::Mixed)
        } else {
            None
        }
    }
}

/// Pixel aspect ratio named by the `A` header parameter.
#[derive(Debug, Clone, Copy, PartialEq, Eq, Structural)]
pub struct AspectRatio {
    pub num: u32,
    pub den: u32,
}

/// Everything the `YUV4MPEG2` header line carries. `raw_params` holds the
/// parameter bytes exactly as they stood after the magic, and the writer
/// mirrors them, so a round trip reproduces the header it was given.
#[derive(Debug, Clone)]
pub struct Y4mFormat {
    pub width: u32,
    pub height: u32,
    pub framerate_num: u32,
    pub framerate_den: u32,
    pub colorspace: Option<Colorspace>,
    pub interlacing: Interlacing,
    pub aspect_ratio: Option<AspectRatio>,
    pub raw_params: Vec<u8>,
}

/// The header fields alone, as a plain value the parsing functions can
/// build up.
#[derive(Debug, Clone, Copy, PartialEq, Eq, Structural)]
pub struct Y4mFields {
    pub width: u32,
    pub height: u32,
    pub framerate_num: u32,
    pub framerate_den: u32,
    pub colorspace: Option<Colorspace>,
    pub interlacing: Interlacing,
    pub aspect_ratio: Option<AspectRatio>,
}

impl Y4mFormat {
    /// Planar YUV 4:2:0 frame payload: a full Y plane and two
    /// quarter-size chroma planes.
    pub open spec fn spec_frame_size(&self) -> int {
        self.width * self.height + 2 * ((self.width / 2) * (self.height / 2))
    }

    pub open spec fn fields(&self) -> Y4mFields {
        Y4mFields {
            width: self.width,
            height: self.height,
            framerate_num: self.framerate_num,
            framerate_den: self.framerate_den,
            colorspace: self.colorspace,
            interlacing: self.interlacing,
            aspect_ratio: self.aspect_ratio,
        }
    }

    /// The fields are exactly what parsing `raw_params` gives, and the
    /// parameters fit on one header line.
    pub open spec fn parsed(&self) -> bool {
        &&& self.fields() == apply_params(base_fields(), self.raw_params@)
        &&& forall|i: int| 0 <= i < self.raw_params@.len() ==> self.raw_params@[i] != 0x0au8
    }
}

/// The field defaults a header scan starts from.
pub open spec fn base_fields() -> Y4mFields {
    Y4mFields {
        width: 0,
        height: 0,
        framerate_num: 30,
        framerate_den: 1,
        colorspace: None,
        interlacing: Interlacing::Progressive,
        aspect_ratio: None,
    }
}

/// The value of a run of ASCII digits, most significant first.
pub open spec fn dec_val(s: Seq<u8>) -> int
    decreases s.len(),
{
    if s.len() == 0 {
        0
    } else {
        dec_val(s.drop_last()) * 10 + (s.last() - 0x30)
    }
}

pub open spec fn is_digits(s: Seq<u8>) -> bool {
    s.len() > 0 && forall|i: int| 0 <= i < s.len() ==> 0x30 <= #[trigger] s[i] <= 0x39
}

/// What `u32` parsing of a token yields: digits only, value in range.
pub open spec fn parse_u32_spec(s: Seq<u8>) -> Option<u32> {
    if is_digits(s) && dec_val(s) <= u32::MAX {
        Some(dec_val(s) as u32)
    } else {
        None
    }
}

/// The position of the first byte equal to `c`, if any.
pub open spec fn find_byte(s: Seq<u8>, c: u8) -> Option<int>
    decreases s.len(),
{
    if s.len() == 0 {
        None
    } else if s[0] == c {
        Some(0int)
    } else {
        match find_byte(s.skip(1), c) {
            None => None,
            Some(i) => Some(i + 1),
        }
    }
}

/// `num:den`, both decimal.
pub open spec fn parse_ratio_spec(s: Seq<u8>) -> Option<(u32, u32)> {
    match find_byte(s, 0x3au8) {
        None => None,
        Some(i) => match (parse_u32_spec(s.take(i)), parse_u32_spec(s.skip(i + 1))) {
            (Some(n), Some(d)) => Some((n, d)),
            (Some(n), None) => Some((n, 1)),
            (None, Some(d)) => Some((30, d)),
            (None, None) => Some((30, 1)),
        },
    }
}

/// One `X<value>` parameter applied to the format; unknown or malformed
/// parameters leave it unchanged (framerate falls back per part).
pub open spec fn apply_param(f: Y4mFields, tok: Seq<u8>) -> Y4mFields
    recommends
        tok.len() > 0,
{
    let v = tok.skip(1);
    if tok[0] == 0x57 {
        // W
        match parse_u32_spec(v) {
            Some(w) => Y4mFields { width: w, ..f },
            None => f,
        }
    } else if tok[0] == 0x48 {
        // H
        match parse_u32_spec(v) {
            Some(h) => Y4mFields { height: h, ..f },
            None => f,
        }
    } else if tok[0] == 0x46 {
        // F num:den
        match parse_ratio_spec(v) {
            Some((n, d)) => Y4mFields { framerate_num: n, framerate_den: d, ..f },
            None => f,
        }
    } else if tok[0] == 0x49 {
        // I
        if v.len() > 0 {
            match Interlacing::spec_from_byte(v[0]) {
                Some(i) => Y4mFields { interlacing: i, ..f },
                None => Y4mFields { interlacing: Interlacing::Progressive, ..f },
            }
        } else {
            f
        }
    } else if tok[0] == 0x43 {
        // C
        Y4mFields { colorspace: Colorspace::spec_from_bytes(v), ..f }
    } else if tok[0] == 0x41 {
        // A num:den
        match parse_ratio_spec(v) {
            Some((n, d)) => Y4mFields {
                aspect_ratio: Some(AspectRatio { num: n, den: d }),
                ..f
            },
            None => Y4mFields { aspect_ratio: None, ..f },
        }
    } else {
        f
    }
}

/// A found byte lies within the sequence.
pub proof fn lemma_find_byte_bounds(s: Seq<u8>, c: u8)
    ensures
        find_byte(s, c) matches Some(i) ==> 0 <= i < s.len() && s[i] == c,
    decreases s.len(),
{
    if s.len() > 0 && s[0] != c {
        lemma_find_byte_bounds(s.skip(1), c);
    }
}

/// All space-separated parameters of the header line, left to right.
pub open spec fn apply_params(f: Y4mFields, s: Seq<u8>) -> Y4mFields
    decreases s.len(),
    via apply_params_dec
{
    if s.len() == 0 {
        f
    } else if s[0] == 0x20 {
        apply_params(f, s.skip(1))
    } else {
        match find_byte(s, 0x20u8) {
            None => apply_param(f, s),
            Some(i) => apply_params(apply_param(f, s.take(i)), s.skip(i + 1)),
        }
    }
}

#[via_fn]
proof fn apply_params_dec(f: Y4mFields, s: Seq<u8>) {
    if s.len() != 0 && s[0] != 0x20 {
        lemma_find_byte_bounds(s, 0x20u8);
    }
}

/// The magic that opens every stream.
pub open spec fn y4m_magic() -> Seq<u8> {
    seq![0x59u8, 0x55u8, 0x56u8, 0x34u8, 0x4du8, 0x50u8, 0x45u8, 0x47u8, 0x32u8]
}

/// The header line the writer emits: magic, the raw parameters as they
/// were given, a line feed.
pub open spec fn y4m_header_bytes(format: Y4mFormat) -> Seq<u8> {
    y4m_magic() + format.raw_params@ + seq![0x0au8]
}

/// The marker before each frame payload.
pub open spec fn frame_marker() -> Seq<u8> {
    seq![0x46u8, 0x52u8, 0x41u8, 0x4du8, 0x45u8, 0x0au8]
}

/// The header line of a stream: the magic, then the raw parameters up to
/// the first line feed. Yields the parameters and the rest of the stream.
pub open spec fn y4m_parse(s: Seq<u8>) -> Option<(Seq<u8>, Seq<u8>)> {
    match find_byte(s, 0x0au8) {
        None => None,
        Some(i) => {
            let line = s.take(i);
            if line.len() >= 9 && line.take(9) == y4m_magic() {
                Some((line.skip(9), s.skip(i + 1)))
            } else {
                None
            }
        },
    }
}

/// One frame of the stream: a line starting `FRAME`, then `fsize` payload
/// bytes. Yields the payload and the rest.
pub open spec fn y4m_next_frame(s: Seq<u8>, fsize: int) -> Option<(Seq<u8>, Seq<u8>)> {
    match find_byte(s, 0x0au8) {
        None => None,
        Some(i) => {
            let line = s.take(i);
            if line.len() >= 5 && line.take(5) == seq![0x46u8, 0x52u8, 0x41u8, 0x4du8, 0x45u8]
                && s.len() >= i + 1 + fsize {
                Some((s.subrange(i + 1, i + 1 + fsize), s.skip(i + 1 + fsize)))
            } else {
                None
            }
        },
    }
}

/// `find_byte` returns exactly the first position holding the byte.
pub proof fn lemma_find_byte_first(s: Seq<u8>, c: u8, i: int)
    requires
        0 <= i <= s.len(),
        forall|j: int| 0 <= j < i ==> s[j] != c,
        i < s.len() ==> s[i] == c,
    ensures
        i < s.len() ==> find_byte(s, c) == Some(i),
        i == s.len() ==> find_byte(s, c) is None,
    decreases s.len(),
{
    if s.len() == 0 {
    } else if s[0] == c {
    } else {
        lemma_find_byte_first(s.skip(1), c, i - 1);
    }
}

/// Reading back a written header gives the same raw parameters, and so,
/// for a format whose fields agree with its parameters, the same width,
/// height, framerate, colorspace, interlacing, and aspect ratio.
pub proof fn lemma_y4m_header_roundtrip(format: Y4mFormat, rest: Seq<u8>)
    requires
        format.parsed(),
    ensures
        y4m_parse(y4m_header_bytes(format) + rest) == Some((format.raw_params@, rest)),
        apply_params(base_fields(), format.raw_params@) == format.fields(),
{
    let s = y4m_header_bytes(format) + rest;
    let raw = format.raw_params@;
    let n = 9 + raw.len() as int;
    assert(forall|j: int| 0 <= j < n ==> s[j] != 0x0au8);
    assert(s[n] == 0x0au8);
    lemma_find_byte_first(s, 0x0au8, n);
    assert(s.take(n).take(9) =~= y4m_magic());
    assert(s.take(n).skip(9) =~= raw);
    assert(s.skip(n + 1) =~= rest);
}

} // verus!
