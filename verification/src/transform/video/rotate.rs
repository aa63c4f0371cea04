use vstd::prelude::*;

use crate::io::error::IoResult;
use crate::model::frame::{Frame, FrameData, FrameVideo};
use crate::transform::video::{checked_plane_sizes, duplicate_frame, yuv_total};

verus! {

#[derive(Debug, Clone, Copy, PartialEq, Eq, Structural)]
pub enum RotateAngle {
    Rotate90,
    Rotate180,
    Rotate270,
}

/// One plane turned clockwise. The destination has the same area; for a
/// quarter turn its width is the source height.
pub open spec fn rotate_plane_of(p: Seq<u8>, w: int, h: int, angle: RotateAngle) -> Seq<u8>
    recommends
        w >= 0,
        h >= 0,
        p.len() == w * h,
{
    let dw = if angle is Rotate180 {
        w
    } else {
        h
    };
    Seq::new(
        (w * h) as nat,
        |k: int|
            {
                let dx = k % dw;
                let dy = k / dw;
                let sx = match angle {
                    RotateAngle::Rotate90 => dy,
                    RotateAngle::Rotate180 => w - 1 - dx,
                    RotateAngle::Rotate270 => w - 1 - dy,
                };
                let sy = match angle {
                    RotateAngle::Rotate90 => h - 1 - dx,
                    RotateAngle::Rotate180 => h - 1 - dy,
                    RotateAngle::Rotate270 => dx,
                };
                let si = sy * w + sx;
                if 0 <= si < p.len() {
                    p[si]
                } else {
                    0
                }
            },
    )
}

/// All three planes turned by the same angle.
pub open spec fn rotate_frame_bytes(data: Seq<u8>, w: int, h: int, angle: RotateAngle) -> Seq<u8>
    recommends
        data.len() >= yuv_total(w, h),
{
    let ys = w * h;
    let uvw = w / 2;
    let uvh = h / 2;
    let uvs = uvw * uvh;
    rotate_plane_of(data.subrange(0, ys), w, h, angle) + rotate_plane_of(
        data.subrange(ys, ys + uvs),
        uvw,
        uvh,
        angle,
    ) + rotate_plane_of(data.subrange(ys + uvs, ys + 2 * uvs), uvw, uvh, angle)
}

/// Turns YUV 4:2:0 frames of the configured dimensions clockwise; audio
/// frames and frames too short for the dimensions pass through unchanged.
pub struct Rotate {
    pub angle: RotateAngle,
    pub width: u32,
    pub height: u32,
}

impl Rotate {
    pub fn new(width: u32, height: u32, angle: RotateAngle) -> (r: Rotate)
        ensures
            r == (Rotate { angle, width, height }),
    {
        Rotate { angle, width, height }
    }

    pub fn rotate_90(width: u32, height: u32) -> (r: Rotate)
        ensures
            r == (Rotate { angle: RotateAngle::Rotate90, width, height }),
    {
        Rotate::new(width, height, RotateAngle::Rotate90)
    }

    pub fn rotate_180(width: u32, height: u32) -> (r: Rotate)
        ensures
            r == (Rotate { angle: RotateAngle::Rotate180, width, height }),
    {
        Rotate::new(width, height, RotateAngle::Rotate180)
    }

    pub fn rotate_270(width: u32, height: u32) -> (r: Rotate)
        ensures
            r == (Rotate { angle: RotateAngle::Rotate270, width, height }),
    {
        Rotate::new(width, height, RotateAngle::Rotate270)
    }

    pub fn output_dimensions(&self) -> (r: (u32, u32))
        ensures
            self.angle is Rotate180 ==> r == (self.width, self.height),
            !(self.angle is Rotate180) ==> r == (self.height, self.width),
    {
        match self.angle {
            RotateAngle::Rotate90 | RotateAngle::Rotate270 => (self.height, self.width),
            RotateAngle::Rotate180 => (self.width, self.height),
        }
    }

    /// Builds the turned frame; the source frame's own dimension fields
    /// ride along unchanged, as does its position.
    #[verifier::loop_isolation(false)]
    pub fn apply_yuv420(&self, frame: &Frame) -> (r: IoResult<Frame>)
        ensures
            r matches Ok(f) && {
                if frame.is_video() && frame.spec_video().data@.len() >= yuv_total(
                    self.width as int,
                    self.height as int,
                ) && yuv_total(self.width as int, self.height as int) <= usize::MAX / 2 {
                    &&& f.is_video()
                    &&& f.spec_video().data@ == rotate_frame_bytes(
                        frame.spec_video().data@,
                        self.width as int,
                        self.height as int,
                        self.angle,
                    )
                    &&& f.spec_video().width == frame.spec_video().width
                    &&& f.spec_video().height == frame.spec_video().height
                    &&& f.spec_video().format == frame.spec_video().format
                    &&& f.pts == frame.pts && f.timebase == frame.timebase && f.stream_index
                        == frame.stream_index
                } else {
                    true
                }
            },
    {
        match &frame.data {
            FrameData::Audio(_) => Ok(duplicate_frame(frame)),
            FrameData::Video(v) => {
                let (y_size, uv_size) = match checked_plane_sizes(self.width, self.height) {
                    Some(p) => p,
                    None => {
                        return Ok(duplicate_frame(frame));
                    },
                };
                if v.data.len() < y_size + 2 * uv_size {
                    return Ok(duplicate_frame(frame));
                }
                let mut dst: Vec<u8> = vec![0u8; y_size + 2 * uv_size];
                rotate_plane(&v.data, 0, &mut dst, 0, self.width as usize, self.height as usize, self.angle);
                let uv_w = (self.width / 2) as usize;
                let uv_h = (self.height / 2) as usize;
                rotate_plane(&v.data, y_size, &mut dst, y_size, uv_w, uv_h, self.angle);
                rotate_plane(&v.data, y_size + uv_size, &mut dst, y_size + uv_size, uv_w, uv_h, self.angle);
                proof {
                    assert(dst@ =~= rotate_frame_bytes(
                        v.data@,
                        self.width as int,
                        self.height as int,
                        self.angle,
                    ));
                }
                Ok(
                    Frame {
                        data: FrameData::Video(
                            FrameVideo { data: dst, width: v.width, height: v.height, format: v.format },
                        ),
                        pts: frame.pts,
                        timebase: frame.timebase,
                        stream_index: frame.stream_index,
                    },
                )
            },
        }
    }
}

/// Writes the turned plane `src[src_off ..]` into `dst[dst_off ..]`.
#[verifier::loop_isolation(false)]
fn rotate_plane(
    src: &Vec<u8>,
    src_off: usize,
    dst: &mut Vec<u8>,
    dst_off: usize,
    w: usize,
    h: usize,
    angle: RotateAngle,
)
    requires
        src_off + w * h <= src@.len(),
        dst_off + w * h <= old(dst)@.len(),
        w * h <= usize::MAX,
    ensures
        final(dst)@.len() == old(dst)@.len(),
        forall|j: int|
            0 <= j < old(dst)@.len() && !(dst_off <= j < dst_off + w * h) ==> final(dst)@[j]
                == old(dst)@[j],
        final(dst)@.subrange(dst_off as int, dst_off + w * h) == rotate_plane_of(
            src@.subrange(src_off as int, src_off + w * h),
            w as int,
            h as int,
            angle,
        ),
{
    let ghost plane = src@.subrange(src_off as int, src_off + w * h);
    let src_len = src.len();
    let dst_len = dst.len();
    let total = w * h;
    let dw = match angle {
        RotateAngle::Rotate180 => w,
        _ => h,
    };
    if dw == 0 {
        proof {
            assert(w * h == 0) by (nonlinear_arith)
                requires
                    (w == 0 || h == 0) && w >= 0 && h >= 0,
            ;
            assert(final(dst)@.subrange(dst_off as int, dst_off + w * h) =~= rotate_plane_of(
                plane,
                w as int,
                h as int,
                angle,
            ));
        }
        return ;
    }
    let mut k: usize = 0;
    while k < total
        invariant
            dw >= 1,
            dw == (if angle is Rotate180 {
                w as int
            } else {
                h as int
            }),
            total == w * h,
            src_off + total <= src_len && src_len == src@.len(),
            dst_off + total <= dst_len && dst_len == dst@.len(),
            dst@.len() == old(dst)@.len(),
            k <= total,
            forall|j: int|
                0 <= j < dst@.len() && !(dst_off <= j < dst_off + k) ==> dst@[j] == old(dst)@[j],
            forall|j: int|
                0 <= j < k ==> dst@[dst_off + j] == rotate_plane_of(
                    plane,
                    w as int,
                    h as int,
                    angle,
                )[j],
        decreases total - k,
    {
        let dx = k % dw;
        let dy = k / dw;
        proof {
            assert(w >= 1 && h >= 1) by (nonlinear_arith)
                requires
                    0 <= k < w * h && w >= 0 && h >= 0,
            ;
            vstd::arithmetic::div_mod::lemma_mod_bound(k as int, dw as int);
            vstd::arithmetic::div_mod::lemma_fundamental_div_mod(k as int, dw as int);
            if angle is Rotate180 {
                assert(dy < h) by (nonlinear_arith)
                    requires
                        k < w * h && w >= 1 && dy == k as int / w as int && k >= 0 && h >= 1 && dw
                            == w,
                ;
            } else {
                assert(dy < w) by (nonlinear_arith)
                    requires
                        k < w * h && h >= 1 && dy == k as int / h as int && k >= 0 && w >= 1 && dw
                            == h,
                ;
            }
        }
        let sx = match angle {
            RotateAngle::Rotate90 => dy,
            RotateAngle::Rotate180 => w - 1 - dx,
            RotateAngle::Rotate270 => w - 1 - dy,
        };
        let sy = match angle {
            RotateAngle::Rotate90 => h - 1 - dx,
            RotateAngle::Rotate180 => h - 1 - dy,
            RotateAngle::Rotate270 => dx,
        };
        proof {
            assert(sy * w + sx < w * h && sy * w + sx >= 0) by (nonlinear_arith)
                requires
                    0 <= sy < h && 0 <= sx < w && w >= 1 && h >= 1,
            ;
        }
        let si = sy * w + sx;
        let b = src[src_off + si];
        dst.set(dst_off + k, b);
        proof {
            assert(plane[si as int] == src@[src_off + si]);
        }
        k = k + 1;
    }
    proof {
        assert(dst@.subrange(dst_off as int, dst_off + w * h) =~= rotate_plane_of(
            plane,
            w as int,
            h as int,
            angle,
        ));
    }
}

/// A half turn twice gives back every plane byte: both coordinate maps
/// `x -> w-1-x` and `y -> h-1-y` are involutions.
pub proof fn lemma_rotate180_plane_involution(p: Seq<u8>, w: int, h: int)
    requires
        w >= 0,
        h >= 0,
        p.len() == w * h,
    ensures
        rotate_plane_of(rotate_plane_of(p, w, h, RotateAngle::Rotate180), w, h, RotateAngle::Rotate180)
            == p,
{
    let angle = RotateAngle::Rotate180;
    let c = rotate_plane_of(p, w, h, angle);
    assert(c.len() == p.len());
    assert forall|k: int| 0 <= k < p.len() implies rotate_plane_of(c, w, h, angle)[k] == p[k] by {
        assert(w >= 1 && h >= 1) by (nonlinear_arith)
            requires
                0 <= k < w * h && w >= 0 && h >= 0,
        ;
        let x = k % w;
        let y = k / w;
        vstd::arithmetic::div_mod::lemma_mod_bound(k, w);
        vstd::arithmetic::div_mod::lemma_fundamental_div_mod(k, w);
        vstd::arithmetic::mul::lemma_mul_is_commutative(w, y);
        assert(0 <= y < h) by (nonlinear_arith)
            requires
                0 <= k < w * h && w >= 1 && y == k / w && h >= 1,
        ;
        let sx = w - 1 - x;
        let sy = h - 1 - y;
        let si = sy * w + sx;
        assert(0 <= si < w * h) by (nonlinear_arith)
            requires
                si == sy * w + sx && 0 <= sy < h && 0 <= sx < w && w >= 1,
        ;
        vstd::arithmetic::div_mod::lemma_fundamental_div_mod_converse(si, w, sy, sx);
        assert(si % w == sx && si / w == sy);
        vstd::arithmetic::div_mod::lemma_fundamental_div_mod_converse(k, w, y, x);
        assert((h - 1 - sy) * w + (w - 1 - sx) == k);
        assert(c[si] == p[k]);
    }
    assert(rotate_plane_of(c, w, h, angle) =~= p);
}

/// A half turn twice gives back the original frame planes.
#[verifier::rlimit(100)]
pub proof fn lemma_rotate180_involution(data: Seq<u8>, w: int, h: int)
    requires
        w >= 0,
        h >= 0,
        data.len() == yuv_total(w, h),
    ensures
        rotate_frame_bytes(
            rotate_frame_bytes(data, w, h, RotateAngle::Rotate180),
            w,
            h,
            RotateAngle::Rotate180,
        ) == data,
{
    let angle = RotateAngle::Rotate180;
    let ys = w * h;
    let uvw = w / 2;
    let uvh = h / 2;
    let uvs = uvw * uvh;
    let c = rotate_frame_bytes(data, w, h, angle);
    vstd::arithmetic::mul::lemma_mul_nonnegative(uvw, uvh);
    vstd::arithmetic::mul::lemma_mul_nonnegative(w, h);
    let p0 = data.subrange(0, ys);
    let p1 = data.subrange(ys, ys + uvs);
    let p2 = data.subrange(ys + uvs, ys + 2 * uvs);
    assert(c.subrange(0, ys) =~= rotate_plane_of(p0, w, h, angle));
    assert(c.subrange(ys, ys + uvs) =~= rotate_plane_of(p1, uvw, uvh, angle));
    assert(c.subrange(ys + uvs, ys + 2 * uvs) =~= rotate_plane_of(p2, uvw, uvh, angle));
    lemma_rotate180_plane_involution(p0, w, h);
    lemma_rotate180_plane_involution(p1, uvw, uvh);
    lemma_rotate180_plane_involution(p2, uvw, uvh);
    assert(rotate_frame_bytes(c, w, h, angle) == rotate_plane_of(
        rotate_plane_of(p0, w, h, angle),
        w,
        h,
        angle,
    ) + rotate_plane_of(rotate_plane_of(p1, uvw, uvh, angle), uvw, uvh, angle) + rotate_plane_of(
        rotate_plane_of(p2, uvw, uvh, angle),
        uvw,
        uvh,
        angle,
    ));
    assert(rotate_frame_bytes(c, w, h, angle) == p0 + p1 + p2);
    assert(p0 + p1 + p2 =~= data);
}

} // verus!
