use vstd::prelude::*;

use crate::container::y4m::{
    apply_param, apply_params, base_fields, dec_val, find_byte, parse_ratio_spec, parse_u32_spec,
    y4m_next_frame, y4m_parse, AspectRatio, Colorspace, Interlacing, Y4mFields, Y4mFormat,
};
use crate::io::error::{IoError, IoResult};
use crate::io::reader::{BufferedReader, MediaRead, ReadPrimitives};
use crate::model::packet::Packet;
use crate::model::time::Timebase;
use crate::model::traits::Demuxer;

verus! {

/// A run of digits keeps a non-negative value.
proof fn lemma_dec_val_nonneg(s: Seq<u8>)
    requires
        forall|i: int| 0 <= i < s.len() ==> 0x30 <= #[trigger] s[i] <= 0x39,
    ensures
        dec_val(s) >= 0,
    decreases s.len(),
{
    if s.len() > 0 {
        lemma_dec_val_nonneg(s.drop_last());
    }
}

/// Decimal parsing of a token, as `parse_u32_spec` describes.
#[verifier::loop_isolation(false)]
fn parse_u32_token(s: &[u8]) -> (r: Option<u32>)
    ensures
        r == parse_u32_spec(s@),
{
    let n = s.len();
    if n == 0 {
        return None;
    }
    let mut acc: u64 = 0;
    let mut i: usize = 0;
    while i < n
        invariant
            i <= n,
            n == s@.len(),
            forall|j: int| 0 <= j < i ==> 0x30 <= #[trigger] s@[j] <= 0x39,
            dec_val(s@.take(i as int)) <= u32::MAX ==> acc == dec_val(s@.take(i as int)),
            dec_val(s@.take(i as int)) > u32::MAX ==> acc > u32::MAX,
            acc <= 0xB_0000_0000u64,
        decreases n - i,
    {
        let c = *vstd::slice::slice_index_get(s, i);
        if c < 0x30 || c > 0x39 {
            return None;
        }
        let d = (c - 0x30) as u64;
        proof {
            assert(s@.take(i + 1).drop_last() =~= s@.take(i as int));
            assert(s@.take(i + 1).last() == s@[i as int]);
            lemma_dec_val_nonneg(s@.take(i as int));
        }
        acc = if acc > 0xFFFF_FFFFu64 {
            0x1_0000_0000u64
        } else {
            acc * 10 + d
        };
        i = i + 1;
    }
    proof {
        assert(s@.take(n as int) =~= s@);
    }
    if acc > 0xFFFF_FFFFu64 {
        None
    } else {
        Some(acc as u32)
    }
}

/// The position of the first occurrence of `c`, as `find_byte` describes.
#[verifier::loop_isolation(false)]
fn find_byte_in(s: &[u8], c: u8) -> (r: Option<usize>)
    ensures
        match r {
            Some(i) => find_byte(s@, c) == Some(i as int) && i < s@.len() && s@[i as int] == c,
            None => find_byte(s@, c) is None,
        },
{
    let n = s.len();
    let mut i: usize = 0;
    while i < n
        invariant
            i <= n,
            n == s@.len(),
            forall|j: int| 0 <= j < i ==> s@[j] != c,
        decreases n - i,
    {
        if *vstd::slice::slice_index_get(s, i) == c {
            proof {
                crate::container::y4m::lemma_find_byte_first(s@, c, i as int);
            }
            return Some(i);
        }
        i = i + 1;
    }
    proof {
        crate::container::y4m::lemma_find_byte_first(s@, c, n as int);
    }
    None
}

fn slice_eq(a: &[u8], b: &[u8]) -> (r: bool)
    ensures
        r == (a@ == b@),
{
    let n = a.len();
    if n != b.len() {
        proof {
            assert(a@ != b@);
        }
        return false;
    }
    let mut i: usize = 0;
    while i < n
        invariant
            i <= n,
            n == a@.len() && n == b@.len(),
            forall|j: int| 0 <= j < i ==> a@[j] == b@[j],
        decreases n - i,
    {
        if *vstd::slice::slice_index_get(a, i) != *vstd::slice::slice_index_get(b, i) {
            return false;
        }
        i = i + 1;
    }
    proof {
        assert(a@ =~= b@);
    }
    true
}

impl Colorspace {
    /// The `C` parameter token, as the header spells it.
    pub fn from_bytes(s: &[u8]) -> (r: Option<Colorspace>)
        ensures
            r == Colorspace::spec_from_bytes(s@),
    {
        let c420: Vec<u8> = vec![0x34u8, 0x32u8, 0x30u8];
        let c420jpeg: Vec<u8> = vec![0x34u8, 0x32u8, 0x30u8, 0x6au8, 0x70u8, 0x65u8, 0x67u8];
        let c420paldv: Vec<u8> = vec![0x34u8, 0x32u8, 0x30u8, 0x70u8, 0x61u8, 0x6cu8, 0x64u8, 0x76u8];
        let c420mpeg2: Vec<u8> = vec![0x34u8, 0x32u8, 0x30u8, 0x6du8, 0x70u8, 0x65u8, 0x67u8, 0x32u8];
        let c422: Vec<u8> = vec![0x34u8, 0x32u8, 0x32u8];
        let c444: Vec<u8> = vec![0x34u8, 0x34u8, 0x34u8];
        let mono: Vec<u8> = vec![0x6du8, 0x6fu8, 0x6eu8, 0x6fu8];
        proof {
            assert(c420@ =~= seq![0x34u8, 0x32u8, 0x30u8]);
            assert(c420jpeg@ =~= seq![0x34u8, 0x32u8, 0x30u8, 0x6au8, 0x70u8, 0x65u8, 0x67u8]);
            assert(c420paldv@ =~= seq![0x34u8, 0x32u8, 0x30u8, 0x70u8, 0x61u8, 0x6cu8, 0x64u8, 0x76u8]);
            assert(c420mpeg2@ =~= seq![0x34u8, 0x32u8, 0x30u8, 0x6du8, 0x70u8, 0x65u8, 0x67u8, 0x32u8]);
            assert(c422@ =~= seq![0x34u8, 0x32u8, 0x32u8]);
            assert(c444@ =~= seq![0x34u8, 0x34u8, 0x34u8]);
            assert(mono@ =~= seq![0x6du8, 0x6fu8, 0x6eu8, 0x6fu8]);
        }
        if slice_eq(s, c420.as_slice()) {
            Some(Colorspace::C420)
        } else if slice_eq(s, c420jpeg.as_slice()) {
            Some(Colorspace::C420jpeg)
        } else if slice_eq(s, c420paldv.as_slice()) {
            Some(Colorspace::C420paldv)
        } else if slice_eq(s, c420mpeg2.as_slice()) {
            Some(Colorspace::C420mpeg2)
        } else if slice_eq(s, c422.as_slice()) {
            Some(Colorspace::C422)
        } else if slice_eq(s, c444.as_slice()) {
            Some(Colorspace::C444)
        } else if slice_eq(s, mono.as_slice()) {
            Some(Colorspace::Mono)
        } else {
            None
        }
    }
}

impl Interlacing {
    pub fn from_char_byte(c: u8) -> (r: Option<Interlacing>)
        ensures
            r == Interlacing::spec_from_byte(c),
    {
        if c == 0x70 {
            Some(Interlacing::Progressive)
        } else if c == 0x74 {
            Some(Interlacing::TopFieldFirst)
        } else if c == 0x62 {
            Some(Interlacing::BottomFieldFirst)
        } else if c == 0x6d {
            Some(Interlacing::Mixed)
        } else {
            None
        }
    }
}

/// `num:den`, as `parse_ratio_spec` describes.
fn parse_ratio(s: &[u8]) -> (r: Option<(u32, u32)>)
    ensures
        r == parse_ratio_spec(s@),
{
    let n = s.len();
    match find_byte_in(s, 0x3a) {
        None => None,
        Some(i) => {
            let num = parse_u32_token(vstd::slice::slice_subrange(s, 0, i));
            let den = parse_u32_token(vstd::slice::slice_subrange(s, i + 1, n));
            proof {
                assert(s@.subrange(0, i as int) =~= s@.take(i as int));
                assert(s@.subrange(i + 1, s@.len() as int) =~= s@.skip(i + 1));
            }
            match (num, den) {
                (Some(n), Some(d)) => Some((n, d)),
                (Some(n), None) => Some((n, 1)),
                (None, Some(d)) => Some((30, d)),
                (None, None) => Some((30, 1)),
            }
        },
    }
}

/// One parameter token applied to the fields, as `apply_param` describes.
fn apply_one(f: Y4mFields, tok: &[u8]) -> (r: Y4mFields)
    requires
        tok@.len() > 0,
    ensures
        r == apply_param(f, tok@),
{
    let key = *vstd::slice::slice_index_get(tok, 0);
    let v = vstd::slice::slice_subrange(tok, 1, tok.len());
    proof {
        assert(v@ =~= tok@.skip(1));
    }
    if key == 0x57 {
        match parse_u32_token(v) {
            Some(w) => Y4mFields { width: w, ..f },
            None => f,
        }
    } else if key == 0x48 {
        match parse_u32_token(v) {
            Some(h) => Y4mFields { height: h, ..f },
            None => f,
        }
    } else if key == 0x46 {
        match parse_ratio(v) {
            Some((n, d)) => Y4mFields { framerate_num: n, framerate_den: d, ..f },
            None => f,
        }
    } else if key == 0x49 {
        if v.len() > 0 {
            match Interlacing::from_char_byte(*vstd::slice::slice_index_get(v, 0)) {
                Some(i) => Y4mFields { interlacing: i, ..f },
                None => Y4mFields { interlacing: Interlacing::Progressive, ..f },
            }
        } else {
            f
        }
    } else if key == 0x43 {
        Y4mFields { colorspace: Colorspace::from_bytes(v), ..f }
    } else if key == 0x41 {
        match parse_ratio(v) {
            Some((n, d)) => Y4mFields { aspect_ratio: Some(AspectRatio { num: n, den: d }), ..f },
            None => Y4mFields { aspect_ratio: None, ..f },
        }
    } else {
        f
    }
}

/// All space-separated parameters applied left to right, as `apply_params`
/// describes.
fn apply_all(f: Y4mFields, s: &[u8]) -> (r: Y4mFields)
    ensures
        r == apply_params(f, s@),
    decreases s@.len(),
{
    let n = s.len();
    if n == 0 {
        return f;
    }
    if *vstd::slice::slice_index_get(s, 0) == 0x20 {
        let rest = vstd::slice::slice_subrange(s, 1, n);
        proof {
            assert(rest@ =~= s@.skip(1));
        }
        return apply_all(f, rest);
    }
    match find_byte_in(s, 0x20) {
        None => apply_one(f, s),
        Some(i) => {
            let tok = vstd::slice::slice_subrange(s, 0, i);
            let rest = vstd::slice::slice_subrange(s, i + 1, n);
            proof {
                assert(tok@ =~= s@.take(i as int));
                assert(rest@ =~= s@.skip(i + 1));
                assert(find_byte(s@, 0x20u8) == Some(i as int));
                assert(s@[0] != 0x20u8 && i > 0);
            }
            let g = apply_one(f, tok);
            apply_all(g, rest)
        },
    }
}

/// The defaults a header scan starts from, as `base_fields` gives them.
fn default_fields() -> (r: Y4mFields)
    ensures
        r == base_fields(),
{
    Y4mFields {
        width: 0,
        height: 0,
        framerate_num: 30,
        framerate_den: 1,
        colorspace: None,
        interlacing: Interlacing::Progressive,
        aspect_ratio: None,
    }
}

/// Reads a `YUV4MPEG2` stream: the header line at construction, then one
/// packet per `FRAME`.
pub struct Y4mReader<R> {
    pub reader: BufferedReader<R>,
    pub format: Y4mFormat,
    pub timebase: Timebase,
    pub frame_size: usize,
    pub frame_count: u64,
}

impl<R: MediaRead> Y4mReader<R> {
    /// Established by `new` and kept by every read.
    pub open spec fn wf(&self) -> bool {
        &&& self.format.parsed()
        &&& self.frame_size == self.format.spec_frame_size()
        &&& self.timebase == (Timebase {
            num: self.format.framerate_den,
            den: self.format.framerate_num,
        })
    }

    /// Opens the stream: the header line must carry the magic and fit
    /// before the first line feed, and the frame payload size must be
    /// addressable.
    #[verifier::loop_isolation(false)]
    pub fn new(reader: R) -> (r: IoResult<Y4mReader<R>>)
        ensures
            r matches Ok(w) ==> {
                &&& y4m_parse(reader.stream()) matches Some((raw, rest))
                    && w.format.raw_params@ == raw && w.reader.stream() == rest
                &&& w.wf()
                &&& w.frame_count == 0
            },
            r matches Ok(w) ==> w.format.framerate_num > 0 && w.format.framerate_den > 0,
            r is Err ==> !(y4m_parse(reader.stream()) matches Some((raw, rest))
                && apply_params(base_fields(), raw).width * apply_params(base_fields(), raw).height
                + 2 * ((apply_params(base_fields(), raw).width / 2) * (apply_params(
                base_fields(),
                raw,
            ).height / 2)) <= u32::MAX && apply_params(base_fields(), raw).framerate_num > 0
                && apply_params(base_fields(), raw).framerate_den > 0),
    {
        let mut rd = BufferedReader::new(reader);
        let ghost s0 = rd.stream();
        let mut line: Vec<u8> = Vec::new();
        loop
            invariant
                line@.len() <= s0.len(),
                line@ == s0.take(line@.len() as int),
                forall|j: int| 0 <= j < line@.len() ==> s0[j] != 0x0au8,
                rd.stream() == s0.skip(line@.len() as int),
            decreases s0.len() - line@.len(),
        {
            let b = match rd.read_u8() {
                Ok(b) => b,
                Err(_) => {
                    proof {
                        crate::container::y4m::lemma_find_byte_first(
                            s0,
                            0x0au8,
                            line@.len() as int,
                        );
                    }
                    return Err(IoError::invalid_data("no end of header line"));
                },
            };
            if b == 0x0a {
                proof {
                    crate::container::y4m::lemma_find_byte_first(s0, 0x0au8, line@.len() as int);
                }
                break ;
            }
            let ghost old_line = line@;
            line.push(b);
            proof {
                assert(line@ =~= s0.take(line@.len() as int));
            }
        }
        let ghost lineno = line@.len() as int;
        if line.len() < 9 {
            return Err(IoError::invalid_data("not a Y4M file"));
        }
        let magic: Vec<u8> = vec![0x59u8, 0x55u8, 0x56u8, 0x34u8, 0x4du8, 0x50u8, 0x45u8, 0x47u8, 0x32u8];
        proof {
            assert(magic@ =~= crate::container::y4m::y4m_magic());
        }
        if !slice_eq(vstd::slice::slice_subrange(line.as_slice(), 0, 9), magic.as_slice()) {
            proof {
                assert(line@.subrange(0, 9) =~= s0.take(lineno).take(9));
            }
            return Err(IoError::invalid_data("not a Y4M file"));
        }
        let raw: Vec<u8> = vstd::slice::slice_to_vec(
            vstd::slice::slice_subrange(line.as_slice(), 9, line.len()),
        );
        proof {
            assert(raw@ =~= s0.take(lineno).skip(9));
        }
        let fields = apply_all(default_fields(), raw.as_slice());
        proof {
            vstd::arithmetic::mul::lemma_mul_upper_bound(
                fields.width as int,
                u32::MAX as int,
                fields.height as int,
                u32::MAX as int,
            );
            vstd::arithmetic::mul::lemma_mul_upper_bound(
                fields.width as int / 2,
                u32::MAX as int,
                fields.height as int / 2,
                u32::MAX as int,
            );
        }
        let y_size: u64 = fields.width as u64 * fields.height as u64;
        let uv_size: u64 = (fields.width / 2) as u64 * (fields.height / 2) as u64;
        let total: u64 = match y_size.checked_add(
            match uv_size.checked_mul(2) {
                Some(v) => v,
                None => {
                    return Err(IoError::invalid_data("frame too large"));
                },
            },
        ) {
            Some(v) => v,
            None => {
                return Err(IoError::invalid_data("frame too large"));
            },
        };
        if total > u32::MAX as u64 {
            return Err(IoError::invalid_data("frame too large"));
        }
        if fields.framerate_num == 0 || fields.framerate_den == 0 {
            // a timebase must be a positive rational
            return Err(IoError::invalid_data("framerate must be positive"));
        }
        let format = Y4mFormat {
            width: fields.width,
            height: fields.height,
            framerate_num: fields.framerate_num,
            framerate_den: fields.framerate_den,
            colorspace: fields.colorspace,
            interlacing: fields.interlacing,
            aspect_ratio: fields.aspect_ratio,
            raw_params: raw,
        };
        let timebase = Timebase::new(format.framerate_den, format.framerate_num);
        Ok(
            Y4mReader {
                reader: rd,
                format,
                timebase,
                frame_size: total as usize,
                frame_count: 0,
            },
        )
    }

    pub fn format(&self) -> (r: Y4mFormat)
        ensures
            r.fields() == self.format.fields(),
            r.raw_params@ == self.format.raw_params@,
    {
        let raw: Vec<u8> = vstd::slice::slice_to_vec(self.format.raw_params.as_slice());
        Y4mFormat {
            width: self.format.width,
            height: self.format.height,
            framerate_num: self.format.framerate_num,
            framerate_den: self.format.framerate_den,
            colorspace: self.format.colorspace,
            interlacing: self.format.interlacing,
            aspect_ratio: self.format.aspect_ratio,
            raw_params: raw,
        }
    }
}

impl<R: MediaRead> Demuxer for Y4mReader<R> {
    /// Yields the next frame payload: after a `FRAME` line come exactly
    /// `frame_size` bytes, stamped with the running frame index. `None`
    /// exactly at a clean end of the stream.
    #[verifier::loop_isolation(false)]
    fn read_packet(&mut self) -> (r: IoResult<Option<Packet>>)
        ensures
            old(self).wf() ==> {
                &&& final(self).wf()
                &&& final(self).format.fields() == old(self).format.fields()
                &&& final(self).frame_size == old(self).frame_size
                &&& (r matches Ok(p) ==> match p {
                    None => old(self).reader.stream().len() == 0 && final(self).reader.stream().len() == 0,
                    Some(_pkt2) => final(self).reader.stream().len() < old(
                        self,
                    ).reader.stream().len(),
                })
                &&& (r matches Ok(p) ==> match p {
                    None => true,
                    Some(pkt) => y4m_next_frame(
                        old(self).reader.stream(),
                        old(self).frame_size as int,
                    ) == Some((pkt.data@, final(self).reader.stream())) && (old(self).frame_count
                        <= i64::MAX ==> pkt.pts == old(self).frame_count) && pkt.timebase == old(self).timebase && pkt.stream_index == 0 && (old(self).frame_count < u64::MAX
                        ==> final(self).frame_count == old(self).frame_count + 1),
                })
                &&& (r is Err ==> old(self).reader.stream().len() > 0 && y4m_next_frame(
                    old(self).reader.stream(),
                    old(self).frame_size as int,
                ) is None && final(self).reader.stream().len() <= old(
                    self,
                ).reader.stream().len())
            },
    {
        let ghost s0 = self.reader.stream();
        let mut line: Vec<u8> = Vec::new();
        loop
            invariant
                line@.len() <= s0.len(),
                line@ == s0.take(line@.len() as int),
                forall|j: int| 0 <= j < line@.len() ==> s0[j] != 0x0au8,
                self.reader.stream() == s0.skip(line@.len() as int),
                self.format == old(self).format,
                self.frame_size == old(self).frame_size,
                self.frame_count == old(self).frame_count,
                self.timebase == old(self).timebase,
            decreases s0.len() - line@.len(),
        {
            let b = match self.reader.read_u8() {
                Ok(b) => b,
                Err(e) => {
                    proof {
                        crate::container::y4m::lemma_find_byte_first(
                            s0,
                            0x0au8,
                            line@.len() as int,
                        );
                    }
                    if line.len() == 0 {
                        return Ok(None);
                    }
                    return Err(e);
                },
            };
            if b == 0x0a {
                proof {
                    crate::container::y4m::lemma_find_byte_first(s0, 0x0au8, line@.len() as int);
                }
                break ;
            }
            line.push(b);
            proof {
                assert(line@ =~= s0.take(line@.len() as int));
            }
        }
        let ghost lineno = line@.len() as int;
        if line.len() < 5 {
            return Err(IoError::invalid_data("expected FRAME header"));
        }
        let marker: Vec<u8> = vec![0x46u8, 0x52u8, 0x41u8, 0x4du8, 0x45u8];
        proof {
            assert(marker@ =~= seq![0x46u8, 0x52u8, 0x41u8, 0x4du8, 0x45u8]);
        }
        if !slice_eq(vstd::slice::slice_subrange(line.as_slice(), 0, 5), marker.as_slice()) {
            proof {
                assert(line@.subrange(0, 5) =~= s0.take(lineno).take(5));
            }
            return Err(IoError::invalid_data("expected FRAME header"));
        }
        proof {
            assert(line@.subrange(0, 5) =~= s0.take(lineno).take(5));
        }
        let mut data: Vec<u8> = vec![0u8; self.frame_size];
        match self.reader.read_exact(&mut data) {
            Ok(()) => (),
            Err(e) => {
                return Err(e);
            },
        }
        proof {
            assert(data@ =~= s0.subrange(lineno + 1, lineno + 1 + old(self).frame_size as int));
            assert(self.reader.stream() =~= s0.skip(lineno + 1 + old(self).frame_size as int));
        }
        let pts: i64 = if self.frame_count > i64::MAX as u64 {
            i64::MAX
        } else {
            self.frame_count as i64
        };
        self.frame_count = match self.frame_count.checked_add(1) {
            Some(v) => v,
            None => u64::MAX,
        };
        Ok(Some(Packet::new(data, 0, self.timebase).with_pts(pts)))
    }

    fn stream_count(&self) -> (r: usize)
        ensures
            r == 1,
    {
        1
    }
}

} // verus!
