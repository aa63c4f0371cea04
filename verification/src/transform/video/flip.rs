use vstd::prelude::*;

use crate::io::error::IoResult;
use crate::model::frame::{Frame, FrameData, FrameVideo};
use crate::transform::video::{checked_plane_sizes, duplicate_frame, yuv_total};

verus! {

#[derive(Debug, Clone, Copy, PartialEq, Eq, Structural)]
pub enum FlipDirection {
    Horizontal,
    Vertical,
}

/// One plane mirrored: pixel `(x, y)` of the result is pixel
/// `(w-1-x, y)` of the source (horizontal) or `(x, h-1-y)` (vertical).
pub open spec fn flip_plane_of(p: Seq<u8>, w: int, h: int, horizontal: bool) -> Seq<u8>
    recommends
        w >= 0,
        h >= 0,
        p.len() == w * h,
{
    Seq::new(
        (w * h) as nat,
        |k: int|
            {
                let x = k % w;
                let y = k / w;
                let sx = if horizontal {
                    w - 1 - x
                } else {
                    x
                };
                let sy = if horizontal {
                    y
                } else {
                    h - 1 - y
                };
                let si = sy * w + sx;
                if 0 <= si < p.len() {
                    p[si]
                } else {
                    0
                }
            },
    )
}

/// All three planes of a frame mirrored in place.
pub open spec fn flip_frame_bytes(data: Seq<u8>, w: int, h: int, horizontal: bool) -> Seq<u8>
    recommends
        data.len() >= yuv_total(w, h),
{
    let ys = w * h;
    let uvw = w / 2;
    let uvh = h / 2;
    let uvs = uvw * uvh;
    flip_plane_of(data.subrange(0, ys), w, h, horizontal) + flip_plane_of(
        data.subrange(ys, ys + uvs),
        uvw,
        uvh,
        horizontal,
    ) + flip_plane_of(data.subrange(ys + uvs, ys + 2 * uvs), uvw, uvh, horizontal)
}

/// Mirrors YUV 4:2:0 frames of the configured dimensions; audio frames and
/// frames too short for the dimensions pass through unchanged.
pub struct Flip {
    pub direction: FlipDirection,
    pub width: u32,
    pub height: u32,
}

impl Flip {
    pub fn new(width: u32, height: u32, direction: FlipDirection) -> (r: Flip)
        ensures
            r == (Flip { direction, width, height }),
    {
        Flip { direction, width, height }
    }

    pub fn horizontal(width: u32, height: u32) -> (r: Flip)
        ensures
            r == (Flip { direction: FlipDirection::Horizontal, width, height }),
    {
        Flip::new(width, height, FlipDirection::Horizontal)
    }

    pub fn vertical(width: u32, height: u32) -> (r: Flip)
        ensures
            r == (Flip { direction: FlipDirection::Vertical, width, height }),
    {
        Flip::new(width, height, FlipDirection::Vertical)
    }

    /// Builds the mirrored frame; the source frame's own dimension fields
    /// ride along unchanged, as does its position.
    #[verifier::loop_isolation(false)]
    pub fn apply_yuv420(&self, frame: &Frame) -> (r: IoResult<Frame>)
        ensures
            r matches Ok(f) && {
                if frame.is_video() && frame.spec_video().data@.len() >= yuv_total(
                    self.width as int,
                    self.height as int,
                ) && yuv_total(self.width as int, self.height as int) <= usize::MAX / 2 {
                    &&& f.is_video()
                    &&& f.spec_video().data@ == flip_frame_bytes(
                        frame.spec_video().data@,
                        self.width as int,
                        self.height as int,
                        self.direction is Horizontal,
                    )
                    &&& f.spec_video().width == frame.spec_video().width
                    &&& f.spec_video().height == frame.spec_video().height
                    &&& f.spec_video().format == frame.spec_video().format
                    &&& f.pts == frame.pts && f.timebase == frame.timebase && f.stream_index
                        == frame.stream_index
                } else {
                    true
                }
            },
    {
        match &frame.data {
            FrameData::Audio(_) => Ok(duplicate_frame(frame)),
            FrameData::Video(v) => {
                let (y_size, uv_size) = match checked_plane_sizes(self.width, self.height) {
                    Some(p) => p,
                    None => {
                        return Ok(duplicate_frame(frame));
                    },
                };
                if v.data.len() < y_size + 2 * uv_size {
                    return Ok(duplicate_frame(frame));
                }
                let horizontal = match self.direction {
                    FlipDirection::Horizontal => true,
                    FlipDirection::Vertical => false,
                };
                let mut dst: Vec<u8> = vec![0u8; y_size + 2 * uv_size];
                flip_plane(&v.data, 0, &mut dst, 0, self.width as usize, self.height as usize, horizontal);
                let uv_w = (self.width / 2) as usize;
                let uv_h = (self.height / 2) as usize;
                flip_plane(&v.data, y_size, &mut dst, y_size, uv_w, uv_h, horizontal);
                flip_plane(&v.data, y_size + uv_size, &mut dst, y_size + uv_size, uv_w, uv_h, horizontal);
                proof {
                    assert(dst@ =~= flip_frame_bytes(
                        v.data@,
                        self.width as int,
                        self.height as int,
                        horizontal,
                    ));
                }
                Ok(
                    Frame {
                        data: FrameData::Video(
                            FrameVideo { data: dst, width: v.width, height: v.height, format: v.format },
                        ),
                        pts: frame.pts,
                        timebase: frame.timebase,
                        stream_index: frame.stream_index,
                    },
                )
            },
        }
    }
}

/// Writes the mirrored plane `src[src_off ..]` into `dst[dst_off ..]`.
#[verifier::loop_isolation(false)]
fn flip_plane(
    src: &Vec<u8>,
    src_off: usize,
    dst: &mut Vec<u8>,
    dst_off: usize,
    w: usize,
    h: usize,
    horizontal: bool,
)
    requires
        src_off + w * h <= src@.len(),
        dst_off + w * h <= old(dst)@.len(),
        w * h <= usize::MAX,
    ensures
        final(dst)@.len() == old(dst)@.len(),
        forall|j: int|
            0 <= j < old(dst)@.len() && !(dst_off <= j < dst_off + w * h) ==> final(dst)@[j]
                == old(dst)@[j],
        final(dst)@.subrange(dst_off as int, dst_off + w * h) == flip_plane_of(
            src@.subrange(src_off as int, src_off + w * h),
            w as int,
            h as int,
            horizontal,
        ),
{
    let ghost plane = src@.subrange(src_off as int, src_off + w * h);
    let src_len = src.len();
    let dst_len = dst.len();
    let total = w * h;
    if w == 0 {
        proof {
            assert(final(dst)@.subrange(dst_off as int, dst_off + w * h) =~= flip_plane_of(
                plane,
                w as int,
                h as int,
                horizontal,
            ));
        }
        return ;
    }
    let mut k: usize = 0;
    while k < total
        invariant
            w >= 1,
            total == w * h,
            src_off + total <= src_len && src_len == src@.len(),
            dst_off + total <= dst_len && dst_len == dst@.len(),
            dst@.len() == old(dst)@.len(),
            k <= total,
            forall|j: int|
                0 <= j < dst@.len() && !(dst_off <= j < dst_off + k) ==> dst@[j] == old(dst)@[j],
            forall|j: int|
                0 <= j < k ==> dst@[dst_off + j] == flip_plane_of(
                    plane,
                    w as int,
                    h as int,
                    horizontal,
                )[j],
        decreases total - k,
    {
        let x = k % w;
        let y = k / w;
        proof {
            assert(h >= 1) by (nonlinear_arith)
                requires
                    k < w * h && 0 <= k && w >= 1 && h >= 0,
            ;
            vstd::arithmetic::div_mod::lemma_mod_bound(k as int, w as int);
            vstd::arithmetic::div_mod::lemma_fundamental_div_mod(k as int, w as int);
            assert(y < h) by (nonlinear_arith)
                requires
                    k < w * h && w >= 1 && y == k as int / w as int && k >= 0 && h >= 0,
            ;
        }
        let sx = if horizontal {
            w - 1 - x
        } else {
            x
        };
        let sy = if horizontal {
            y
        } else {
            h - 1 - y
        };
        proof {
            assert(sy * w + sx < w * h && sy * w + sx >= 0) by (nonlinear_arith)
                requires
                    0 <= sy < h && 0 <= sx < w && w >= 1 && h >= 1,
            ;
        }
        let si = sy * w + sx;
        let b = src[src_off + si];
        dst.set(dst_off + k, b);
        proof {
            assert(plane[si as int] == src@[src_off + si]);
        }
        k = k + 1;
    }
    proof {
        assert(dst@.subrange(dst_off as int, dst_off + w * h) =~= flip_plane_of(
            plane,
            w as int,
            h as int,
            horizontal,
        ));
    }
}

/// Mirroring twice gives back every plane byte: the map `x -> w-1-x` is an
/// involution (and so is `y -> h-1-y`).
pub proof fn lemma_flip_plane_involution(p: Seq<u8>, w: int, h: int, horizontal: bool)
    requires
        w >= 0,
        h >= 0,
        p.len() == w * h,
    ensures
        flip_plane_of(flip_plane_of(p, w, h, horizontal), w, h, horizontal) == p,
{
    let c = flip_plane_of(p, w, h, horizontal);
    assert(c.len() == p.len());
    assert forall|k: int| 0 <= k < p.len() implies flip_plane_of(c, w, h, horizontal)[k]
        == p[k] by {
        assert(w >= 1 && h >= 1) by (nonlinear_arith)
            requires
                0 <= k < w * h && w >= 0 && h >= 0,
        ;
        let x = k % w;
        let y = k / w;
        vstd::arithmetic::div_mod::lemma_mod_bound(k, w);
        vstd::arithmetic::div_mod::lemma_fundamental_div_mod(k, w);
        vstd::arithmetic::mul::lemma_mul_is_commutative(w, y);
        assert(0 <= y < h) by (nonlinear_arith)
            requires
                0 <= k < w * h && w >= 1 && y == k / w && h >= 1,
        ;
        let sx = if horizontal {
            w - 1 - x
        } else {
            x
        };
        let sy = if horizontal {
            y
        } else {
            h - 1 - y
        };
        let si = sy * w + sx;
        assert(0 <= si < w * h) by (nonlinear_arith)
            requires
                si == sy * w + sx && 0 <= sy < h && 0 <= sx < w && w >= 1,
        ;
        vstd::arithmetic::div_mod::lemma_fundamental_div_mod_converse(si, w, sy, sx);
        // the outer flip reads `c[si]`, and `c[si]` is in turn the source
        // pixel at the doubly mirrored coordinates, which are `(x, y)`
        assert(si % w == sx && si / w == sy);
        let bx = if horizontal {
            w - 1 - sx
        } else {
            sx
        };
        let by = if horizontal {
            sy
        } else {
            h - 1 - sy
        };
        assert(bx == x && by == y);
        vstd::arithmetic::div_mod::lemma_fundamental_div_mod_converse(k, w, y, x);
        assert(by * w + bx == k);
        assert(c[si] == p[k]);
    }
    assert(flip_plane_of(c, w, h, horizontal) =~= p);
}

/// Mirroring a whole frame twice gives back the original planes.
#[verifier::rlimit(100)]
pub proof fn lemma_flip_involution(data: Seq<u8>, w: int, h: int, horizontal: bool)
    requires
        w >= 0,
        h >= 0,
        data.len() == yuv_total(w, h),
    ensures
        flip_frame_bytes(flip_frame_bytes(data, w, h, horizontal), w, h, horizontal) == data,
{
    let ys = w * h;
    let uvw = w / 2;
    let uvh = h / 2;
    let uvs = uvw * uvh;
    let c = flip_frame_bytes(data, w, h, horizontal);
    vstd::arithmetic::mul::lemma_mul_nonnegative(uvw, uvh);
    vstd::arithmetic::mul::lemma_mul_nonnegative(w, h);
    let p0 = data.subrange(0, ys);
    let p1 = data.subrange(ys, ys + uvs);
    let p2 = data.subrange(ys + uvs, ys + 2 * uvs);
    assert(c.subrange(0, ys) =~= flip_plane_of(p0, w, h, horizontal));
    assert(c.subrange(ys, ys + uvs) =~= flip_plane_of(p1, uvw, uvh, horizontal));
    assert(c.subrange(ys + uvs, ys + 2 * uvs) =~= flip_plane_of(p2, uvw, uvh, horizontal));
    lemma_flip_plane_involution(p0, w, h, horizontal);
    lemma_flip_plane_involution(p1, uvw, uvh, horizontal);
    lemma_flip_plane_involution(p2, uvw, uvh, horizontal);
    assert(flip_frame_bytes(c, w, h, horizontal) == flip_plane_of(
        flip_plane_of(p0, w, h, horizontal),
        w,
        h,
        horizontal,
    ) + flip_plane_of(flip_plane_of(p1, uvw, uvh, horizontal), uvw, uvh, horizontal)
        + flip_plane_of(flip_plane_of(p2, uvw, uvh, horizontal), uvw, uvh, horizontal));
    assert(flip_frame_bytes(c, w, h, horizontal) == p0 + p1 + p2);
    assert(p0 + p1 + p2 =~= data);
}

} // verus!
