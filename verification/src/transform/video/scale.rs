use vstd::prelude::*;

use crate::io::error::IoResult;
use crate::model::frame::{Frame, FrameData, FrameVideo};
use crate::transform::video::{checked_plane_sizes, duplicate_frame, yuv_total};

verus! {

#[derive(Debug, Clone, Copy, PartialEq, Eq, Structural)]
pub enum ScaleMode {
    NearestNeighbor,
    Bilinear,
}

/// One plane resized by nearest neighbour: destination pixel `(x, y)` reads
/// source pixel `(x·sw/dw, y·sh/dh)`.
pub open spec fn scale_nearest_plane_of(p: Seq<u8>, sw: int, sh: int, dw: int, dh: int) -> Seq<u8>
    recommends
        sw >= 0,
        sh >= 0,
        dw >= 0,
        dh >= 0,
        p.len() == sw * sh,
{
    Seq::new(
        (dw * dh) as nat,
        |k: int|
            {
                let x = k % dw;
                let y = k / dw;
                let sx = x * sw / dw;
                let sy = y * sh / dh;
                let si = sy * sw + sx;
                if 0 <= si < p.len() {
                    p[si]
                } else {
                    0
                }
            },
    )
}

/// All three planes resized by nearest neighbour.
pub open spec fn scale_nearest_frame_bytes(
    data: Seq<u8>,
    sw: int,
    sh: int,
    dw: int,
    dh: int,
) -> Seq<u8> {
    let ys = sw * sh;
    let uvs = (sw / 2) * (sh / 2);
    scale_nearest_plane_of(data.subrange(0, ys), sw, sh, dw, dh) + scale_nearest_plane_of(
        data.subrange(ys, ys + uvs),
        sw / 2,
        sh / 2,
        dw / 2,
        dh / 2,
    ) + scale_nearest_plane_of(
        data.subrange(ys + uvs, ys + 2 * uvs),
        sw / 2,
        sh / 2,
        dw / 2,
        dh / 2,
    )
}

/// Resizes YUV 4:2:0 frames from the configured source to the target
/// dimensions, by nearest neighbour or bilinear interpolation. Audio
/// frames and frames too short for the dimensions pass through unchanged.
pub struct Scale {
    pub target_width: u32,
    pub target_height: u32,
    pub src_width: u32,
    pub src_height: u32,
    pub mode: ScaleMode,
}

impl Scale {
    pub fn new(src_width: u32, src_height: u32, target_width: u32, target_height: u32) -> (r:
        Scale)
        ensures
            r == (Scale {
                target_width,
                target_height,
                src_width,
                src_height,
                mode: ScaleMode::Bilinear,
            }),
    {
        Scale { target_width, target_height, src_width, src_height, mode: ScaleMode::Bilinear }
    }

    pub fn with_mode(self, mode: ScaleMode) -> (r: Scale)
        ensures
            r == (Scale { mode, ..self }),
    {
        Scale { mode, ..self }
    }

    /// Builds the resized frame. In nearest-neighbour mode the result is
    /// exactly `scale_nearest_frame_bytes`; in bilinear mode the planes have
    /// the same sizes and each pixel is a weighted average of neighbours.
    #[verifier::loop_isolation(false)]
    pub fn apply_yuv420(&self, frame: &Frame) -> (r: IoResult<Frame>)
        ensures
            r matches Ok(f) && {
                if frame.is_video() && frame.spec_video().data@.len() >= yuv_total(
                    self.src_width as int,
                    self.src_height as int,
                ) && yuv_total(self.src_width as int, self.src_height as int) <= usize::MAX / 2
                    && yuv_total(self.target_width as int, self.target_height as int)
                    <= usize::MAX / 2 {
                    &&& f.is_video()
                    &&& f.spec_video().data@.len() == yuv_total(
                        self.target_width as int,
                        self.target_height as int,
                    )
                    &&& self.mode is NearestNeighbor ==> f.spec_video().data@
                        == scale_nearest_frame_bytes(
                        frame.spec_video().data@,
                        self.src_width as int,
                        self.src_height as int,
                        self.target_width as int,
                        self.target_height as int,
                    )
                    &&& f.spec_video().width == frame.spec_video().width
                    &&& f.spec_video().height == frame.spec_video().height
                    &&& f.spec_video().format == frame.spec_video().format
                    &&& f.pts == frame.pts && f.timebase == frame.timebase && f.stream_index
                        == frame.stream_index
                } else {
                    true
                }
            },
    {
        match &frame.data {
            FrameData::Audio(_) => Ok(duplicate_frame(frame)),
            FrameData::Video(v) => {
                let (src_y, src_uv) = match checked_plane_sizes(self.src_width, self.src_height) {
                    Some(p) => p,
                    None => {
                        return Ok(duplicate_frame(frame));
                    },
                };
                let (dst_y, dst_uv) = match checked_plane_sizes(
                    self.target_width,
                    self.target_height,
                ) {
                    Some(p) => p,
                    None => {
                        return Ok(duplicate_frame(frame));
                    },
                };
                if v.data.len() < src_y + 2 * src_uv {
                    return Ok(duplicate_frame(frame));
                }
                let nearest = match self.mode {
                    ScaleMode::NearestNeighbor => true,
                    ScaleMode::Bilinear => false,
                };
                let mut dst: Vec<u8> = vec![0u8; dst_y + 2 * dst_uv];
                scale_plane(
                    &v.data,
                    0,
                    src_y,
                    &mut dst,
                    0,
                    self.src_width as usize,
                    self.src_height as usize,
                    self.target_width as usize,
                    self.target_height as usize,
                    nearest,
                );
                let s_uvw = (self.src_width / 2) as usize;
                let s_uvh = (self.src_height / 2) as usize;
                let d_uvw = (self.target_width / 2) as usize;
                let d_uvh = (self.target_height / 2) as usize;
                scale_plane(&v.data, src_y, src_uv, &mut dst, dst_y, s_uvw, s_uvh, d_uvw, d_uvh, nearest);
                scale_plane(
                    &v.data,
                    src_y + src_uv,
                    src_uv,
                    &mut dst,
                    dst_y + dst_uv,
                    s_uvw,
                    s_uvh,
                    d_uvw,
                    d_uvh,
                    nearest,
                );
                proof {
                    if nearest {
                        assert(dst@ =~= scale_nearest_frame_bytes(
                            v.data@,
                            self.src_width as int,
                            self.src_height as int,
                            self.target_width as int,
                            self.target_height as int,
                        ));
                    }
                }
                Ok(
                    Frame {
                        data: FrameData::Video(
                            FrameVideo { data: dst, width: v.width, height: v.height, format: v.format },
                        ),
                        pts: frame.pts,
                        timebase: frame.timebase,
                        stream_index: frame.stream_index,
                    },
                )
            },
        }
    }
}

/// One source pixel, taken through the plane-local guard.
fn plane_byte(src: &Vec<u8>, src_off: usize, src_size: usize, sx: u128, sy: u128, sw: u128) -> (r:
    u8)
    requires
        src_off + src_size <= src@.len(),
        sx < 0x1_0000_0000_0000 && sy < 0x1_0000_0000_0000 && sw < 0x1_0000_0000_0000,
    ensures
        ({
            let si = sy * sw + sx;
            r == if 0 <= si < src_size {
                src@.subrange(src_off as int, src_off + src_size)[si as int]
            } else {
                0u8
            }
        }),
{
    let n = src.len();
    proof {
        vstd::arithmetic::mul::lemma_mul_upper_bound(
            sy as int,
            0x1_0000_0000_0000,
            sw as int,
            0x1_0000_0000_0000,
        );
        vstd::arithmetic::mul::lemma_mul_nonnegative(sy as int, sw as int);
    }
    let si: u128 = sy * sw + sx;
    if si < src_size as u128 {
        let i = si as usize;
        let b = src[src_off + i];
        proof {
            assert(src@.subrange(src_off as int, src_off + src_size)[si as int] == src@[src_off
                + si as int]);
        }
        b
    } else {
        0
    }
}

/// Writes the resized plane of `src[src_off .. src_off + src_size]` into
/// `dst[dst_off ..]`.
#[verifier::loop_isolation(false)]
#[verifier::rlimit(100)]
fn scale_plane(
    src: &Vec<u8>,
    src_off: usize,
    src_size: usize,
    dst: &mut Vec<u8>,
    dst_off: usize,
    sw: usize,
    sh: usize,
    dw: usize,
    dh: usize,
    nearest: bool,
)
    requires
        src_off + src_size <= src@.len(),
        dst_off + dw * dh <= old(dst)@.len(),
        dw * dh <= usize::MAX,
        sw <= u32::MAX && sh <= u32::MAX && dw <= u32::MAX && dh <= u32::MAX,
    ensures
        final(dst)@.len() == old(dst)@.len(),
        forall|j: int|
            0 <= j < old(dst)@.len() && !(dst_off <= j < dst_off + dw * dh) ==> final(dst)@[j]
                == old(dst)@[j],
        nearest ==> final(dst)@.subrange(dst_off as int, dst_off + dw * dh)
            == scale_nearest_plane_of(
            src@.subrange(src_off as int, src_off + src_size),
            sw as int,
            sh as int,
            dw as int,
            dh as int,
        ),
{
    let ghost plane = src@.subrange(src_off as int, src_off + src_size);
    let src_len = src.len();
    let dst_len = dst.len();
    let total = dw * dh;
    if dw == 0 || dh == 0 {
        proof {
            if nearest {
                assert(dw * dh == 0) by (nonlinear_arith)
                    requires
                        (dw == 0 || dh == 0) && dw >= 0 && dh >= 0,
                ;
                assert(final(dst)@.subrange(dst_off as int, dst_off + dw * dh)
                    =~= scale_nearest_plane_of(plane, sw as int, sh as int, dw as int, dh as int));
            }
        }
        return ;
    }
    let mut k: usize = 0;
    while k < total
        invariant
            dw >= 1 && dh >= 1,
            total == dw * dh,
            src_off + src_size <= src_len && src_len == src@.len(),
            dst_off + total <= dst_len && dst_len == dst@.len(),
            dst@.len() == old(dst)@.len(),
            sw <= u32::MAX && sh <= u32::MAX && dw <= u32::MAX && dh <= u32::MAX,
            k <= total,
            forall|j: int|
                0 <= j < dst@.len() && !(dst_off <= j < dst_off + k) ==> dst@[j] == old(dst)@[j],
            nearest ==> forall|j: int|
                0 <= j < k ==> dst@[dst_off + j] == scale_nearest_plane_of(
                    plane,
                    sw as int,
                    sh as int,
                    dw as int,
                    dh as int,
                )[j],
        decreases total - k,
    {
        let x = k % dw;
        let y = k / dw;
        proof {
            vstd::arithmetic::div_mod::lemma_mod_bound(k as int, dw as int);
            vstd::arithmetic::div_mod::lemma_fundamental_div_mod(k as int, dw as int);
            assert(y < dh) by (nonlinear_arith)
                requires
                    k < dw * dh && dw >= 1 && y == k as int / dw as int && k >= 0 && dh >= 1,
            ;
            vstd::arithmetic::mul::lemma_mul_upper_bound(
                x as int,
                0x1_0000_0000,
                sw as int,
                0x1_0000_0000,
            );
            vstd::arithmetic::mul::lemma_mul_upper_bound(
                y as int,
                0x1_0000_0000,
                sh as int,
                0x1_0000_0000,
            );
            vstd::arithmetic::mul::lemma_mul_nonnegative(x as int, sw as int);
            vstd::arithmetic::mul::lemma_mul_nonnegative(y as int, sh as int);
        }
        let b: u8 = if nearest {
            let sx: u128 = x as u128 * sw as u128 / dw as u128;
            let sy: u128 = y as u128 * sh as u128 / dh as u128;
            proof {
                if sw > 0 {
                    assert((x as int) * (sw as int) < (dw as int) * (sw as int)) by (nonlinear_arith)
                        requires
                            0 <= x < dw && sw >= 1,
                    ;
                    vstd::arithmetic::mul::lemma_mul_is_commutative(dw as int, sw as int);
                    vstd::arithmetic::div_mod::lemma_div_by_multiple_is_strongly_ordered(
                        x as int * sw as int,
                        dw as int * sw as int,
                        sw as int,
                        dw as int,
                    );
                    vstd::arithmetic::div_mod::lemma_div_by_multiple(sw as int, dw as int);
                } else {
                    assert((x as int) * (sw as int) == 0) by (nonlinear_arith)
                        requires
                            sw == 0,
                    ;
                }
                if sh > 0 {
                    assert((y as int) * (sh as int) < (dh as int) * (sh as int)) by (nonlinear_arith)
                        requires
                            0 <= y < dh && sh >= 1,
                    ;
                    vstd::arithmetic::mul::lemma_mul_is_commutative(dh as int, sh as int);
                    vstd::arithmetic::div_mod::lemma_div_by_multiple_is_strongly_ordered(
                        y as int * sh as int,
                        dh as int * sh as int,
                        sh as int,
                        dh as int,
                    );
                    vstd::arithmetic::div_mod::lemma_div_by_multiple(sh as int, dh as int);
                } else {
                    assert((y as int) * (sh as int) == 0) by (nonlinear_arith)
                        requires
                            sh == 0,
                    ;
                }
                vstd::arithmetic::mul::lemma_mul_nonnegative(x as int, sw as int);
                vstd::arithmetic::mul::lemma_mul_nonnegative(y as int, sh as int);
            }
            plane_byte(src, src_off, src_size, sx, sy, sw as u128)
        } else {
            // bilinear: weights from the fractional positions, denominators
            // one less than the target so the last pixel lands on the edge
            let xden: u128 = if dw > 1 {
                (dw - 1) as u128
            } else {
                1
            };
            let yden: u128 = if dh > 1 {
                (dh - 1) as u128
            } else {
                1
            };
            let swm1: u128 = if sw > 0 {
                (sw - 1) as u128
            } else {
                0
            };
            let shm1: u128 = if sh > 0 {
                (sh - 1) as u128
            } else {
                0
            };
            proof {
                vstd::arithmetic::mul::lemma_mul_upper_bound(
                    x as int,
                    0x1_0000_0000,
                    swm1 as int,
                    0x1_0000_0000,
                );
                vstd::arithmetic::mul::lemma_mul_upper_bound(
                    y as int,
                    0x1_0000_0000,
                    shm1 as int,
                    0x1_0000_0000,
                );
                vstd::arithmetic::mul::lemma_mul_nonnegative(x as int, swm1 as int);
                vstd::arithmetic::mul::lemma_mul_nonnegative(y as int, shm1 as int);
            }
            let xnum: u128 = x as u128 * swm1;
            let ynum: u128 = y as u128 * shm1;
            let x0q: u128 = xnum / xden;
            let x0: u128 = if x0q > 0xFFFF_FFFFu128 {
                0xFFFF_FFFFu128
            } else {
                x0q
            };
            let xr: u128 = xnum % xden;
            let y0q: u128 = ynum / yden;
            let y0: u128 = if y0q > 0xFFFF_FFFFu128 {
                0xFFFF_FFFFu128
            } else {
                y0q
            };
            let yr: u128 = ynum % yden;
            proof {
                vstd::arithmetic::div_mod::lemma_div_is_ordered_by_denominator(
                    xnum as int,
                    1,
                    xden as int,
                );
                vstd::arithmetic::div_mod::lemma_div_is_ordered_by_denominator(
                    ynum as int,
                    1,
                    yden as int,
                );
                vstd::arithmetic::div_mod::lemma_mod_bound(xnum as int, xden as int);
                vstd::arithmetic::div_mod::lemma_mod_bound(ynum as int, yden as int);
            }
            let x1: u128 = if sw > 0 && x0 + 1 < sw as u128 {
                x0 + 1
            } else {
                x0
            };
            let y1: u128 = if sh > 0 && y0 + 1 < sh as u128 {
                y0 + 1
            } else {
                y0
            };
            let p00 = plane_byte(src, src_off, src_size, x0, y0, sw as u128) as u128;
            let p10 = plane_byte(src, src_off, src_size, x1, y0, sw as u128) as u128;
            let p01 = plane_byte(src, src_off, src_size, x0, y1, sw as u128) as u128;
            let p11 = plane_byte(src, src_off, src_size, x1, y1, sw as u128) as u128;
            proof {
                vstd::arithmetic::mul::lemma_mul_upper_bound(
                    p00 as int,
                    255,
                    (xden - xr) as int,
                    0x1_0000_0000,
                );
                vstd::arithmetic::mul::lemma_mul_upper_bound(
                    p10 as int,
                    255,
                    xr as int,
                    0x1_0000_0000,
                );
                vstd::arithmetic::mul::lemma_mul_upper_bound(
                    p01 as int,
                    255,
                    (xden - xr) as int,
                    0x1_0000_0000,
                );
                vstd::arithmetic::mul::lemma_mul_upper_bound(
                    p11 as int,
                    255,
                    xr as int,
                    0x1_0000_0000,
                );
                vstd::arithmetic::mul::lemma_mul_nonnegative(p00 as int, (xden - xr) as int);
                vstd::arithmetic::mul::lemma_mul_nonnegative(p10 as int, xr as int);
                vstd::arithmetic::mul::lemma_mul_nonnegative(p01 as int, (xden - xr) as int);
                vstd::arithmetic::mul::lemma_mul_nonnegative(p11 as int, xr as int);
            }
            let top: u128 = p00 * (xden - xr) + p10 * xr;
            let bottom: u128 = p01 * (xden - xr) + p11 * xr;
            proof {
                vstd::arithmetic::mul::lemma_mul_upper_bound(
                    top as int,
                    0x1_0000_0000_0000,
                    (yden - yr) as int,
                    0x1_0000_0000,
                );
                vstd::arithmetic::mul::lemma_mul_upper_bound(
                    bottom as int,
                    0x1_0000_0000_0000,
                    yr as int,
                    0x1_0000_0000,
                );
                vstd::arithmetic::mul::lemma_mul_nonnegative(top as int, (yden - yr) as int);
                vstd::arithmetic::mul::lemma_mul_nonnegative(bottom as int, yr as int);
            }
            proof {
                vstd::arithmetic::mul::lemma_mul_upper_bound(
                    xden as int,
                    0x1_0000_0000,
                    yden as int,
                    0x1_0000_0000,
                );
                assert(xden * yden >= 1) by (nonlinear_arith)
                    requires
                        xden >= 1 && yden >= 1,
                ;
            }
            let value: u128 = (top * (yden - yr) + bottom * yr) / (xden * yden);
            if value > 255 {
                255
            } else {
                value as u8
            }
        };
        dst.set(dst_off + k, b);
        k = k + 1;
    }
    proof {
        if nearest {
            assert(dst@.subrange(dst_off as int, dst_off + dw * dh) =~= scale_nearest_plane_of(
                plane,
                sw as int,
                sh as int,
                dw as int,
                dh as int,
            ));
        }
    }
}

/// Resizing a plane onto its own dimensions by nearest neighbour reads
/// every pixel back in place.
pub proof fn lemma_scale_nearest_plane_identity(p: Seq<u8>, w: int, h: int)
    requires
        w >= 0,
        h >= 0,
        p.len() == w * h,
    ensures
        scale_nearest_plane_of(p, w, h, w, h) == p,
{
    assert forall|k: int| 0 <= k < p.len() implies scale_nearest_plane_of(p, w, h, w, h)[k]
        == p[k] by {
        assert(w >= 1 && h >= 1) by (nonlinear_arith)
            requires
                0 <= k < w * h && w >= 0 && h >= 0,
        ;
        let x = k % w;
        let y = k / w;
        vstd::arithmetic::div_mod::lemma_mod_bound(k, w);
        vstd::arithmetic::div_mod::lemma_fundamental_div_mod(k, w);
        vstd::arithmetic::mul::lemma_mul_is_commutative(w, y);
        assert(0 <= y < h) by (nonlinear_arith)
            requires
                0 <= k < w * h && w >= 1 && y == k / w && h >= 1,
        ;
        vstd::arithmetic::div_mod::lemma_div_multiples_vanish(x, w);
        vstd::arithmetic::mul::lemma_mul_is_commutative(x, w);
        vstd::arithmetic::div_mod::lemma_div_multiples_vanish(y, h);
        vstd::arithmetic::mul::lemma_mul_is_commutative(y, h);
        assert(x * w / w == x && y * h / h == y);
        assert(y * w + x == k);
    }
    assert(scale_nearest_plane_of(p, w, h, w, h) =~= p);
}

/// Resizing a whole frame onto its own dimensions by nearest neighbour
/// gives back its planes byte for byte.
#[verifier::rlimit(100)]
pub proof fn lemma_scale_nearest_identity(data: Seq<u8>, w: int, h: int)
    requires
        w >= 0,
        h >= 0,
        data.len() == yuv_total(w, h),
    ensures
        scale_nearest_frame_bytes(data, w, h, w, h) == data,
{
    let ys = w * h;
    let uvw = w / 2;
    let uvh = h / 2;
    let uvs = uvw * uvh;
    vstd::arithmetic::mul::lemma_mul_nonnegative(uvw, uvh);
    vstd::arithmetic::mul::lemma_mul_nonnegative(w, h);
    let p0 = data.subrange(0, ys);
    let p1 = data.subrange(ys, ys + uvs);
    let p2 = data.subrange(ys + uvs, ys + 2 * uvs);
    lemma_scale_nearest_plane_identity(p0, w, h);
    lemma_scale_nearest_plane_identity(p1, uvw, uvh);
    lemma_scale_nearest_plane_identity(p2, uvw, uvh);
    assert(scale_nearest_frame_bytes(data, w, h, w, h) == p0 + p1 + p2);
    assert(p0 + p1 + p2 =~= data);
}

} // verus!
