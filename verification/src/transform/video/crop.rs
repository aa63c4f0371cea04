use vstd::prelude::*;

use crate::io::error::IoResult;
use crate::model::frame::{Frame, FrameData, FrameVideo};
use crate::transform::video::{checked_plane_sizes, duplicate_frame, yuv_total};

verus! {

/// A window of one plane: pixel `(x, y)` of the result is pixel
/// `(x0 + x, y0 + y)` of the source read at stride `src_w`.
pub open spec fn crop_plane_of(
    p: Seq<u8>,
    src_w: int,
    x0: int,
    y0: int,
    cw: int,
    ch: int,
) -> Seq<u8>
    recommends
        src_w >= 0,
        cw >= 0,
        ch >= 0,
{
    Seq::new(
        (cw * ch) as nat,
        |k: int|
            {
                let x = k % cw;
                let y = k / cw;
                let si = (y0 + y) * src_w + (x0 + x);
                if 0 <= si < p.len() {
                    p[si]
                } else {
                    0
                }
            },
    )
}

/// All three planes cropped; the chroma window sits at the halved offsets.
pub open spec fn crop_frame_bytes(
    data: Seq<u8>,
    src_w: int,
    src_h: int,
    x0: int,
    y0: int,
    cw: int,
    ch: int,
) -> Seq<u8> {
    let ys = src_w * src_h;
    let uvs = (src_w / 2) * (src_h / 2);
    crop_plane_of(data.subrange(0, ys), src_w, x0, y0, cw, ch) + crop_plane_of(
        data.subrange(ys, ys + uvs),
        src_w / 2,
        x0 / 2,
        y0 / 2,
        cw / 2,
        ch / 2,
    ) + crop_plane_of(data.subrange(ys + uvs, ys + 2 * uvs), src_w / 2, x0 / 2, y0 / 2, cw / 2, ch / 2)
}

/// Cuts a window out of YUV 4:2:0 frames of the configured dimensions;
/// the window is clamped into the source at construction. Audio frames and
/// frames too short for the dimensions pass through unchanged.
pub struct Crop {
    pub src_width: u32,
    pub src_height: u32,
    pub x: u32,
    pub y: u32,
    pub width: u32,
    pub height: u32,
}

impl Crop {
    pub fn new(src_width: u32, src_height: u32, x: u32, y: u32, width: u32, height: u32) -> (r:
        Crop)
        ensures
            r.src_width == src_width && r.src_height == src_height,
            r.x == (if x < src_width {
                x as int
            } else {
                src_width as int
            }),
            r.y == (if y < src_height {
                y as int
            } else {
                src_height as int
            }),
            r.width == (if (width as int) < src_width - r.x {
                width as int
            } else {
                src_width - r.x
            }),
            r.height == (if (height as int) < src_height - r.y {
                height as int
            } else {
                src_height - r.y
            }),
    {
        let x = if x < src_width {
            x
        } else {
            src_width
        };
        let y = if y < src_height {
            y
        } else {
            src_height
        };
        let width = if width < src_width - x {
            width
        } else {
            src_width - x
        };
        let height = if height < src_height - y {
            height
        } else {
            src_height - y
        };
        Crop { src_width, src_height, x, y, width, height }
    }

    pub fn center(src_width: u32, src_height: u32, width: u32, height: u32) -> (r: Crop)
        ensures
            r.src_width == src_width && r.src_height == src_height,
    {
        let x = if src_width >= width {
            (src_width - width) / 2
        } else {
            0
        };
        let y = if src_height >= height {
            (src_height - height) / 2
        } else {
            0
        };
        Crop::new(src_width, src_height, x, y, width, height)
    }

    pub fn output_dimensions(&self) -> (r: (u32, u32))
        ensures
            r == (self.width, self.height),
    {
        (self.width, self.height)
    }

    /// Builds the cropped frame; the source frame's own dimension fields
    /// ride along unchanged, as does its position.
    #[verifier::loop_isolation(false)]
    pub fn apply_yuv420(&self, frame: &Frame) -> (r: IoResult<Frame>)
        ensures
            r matches Ok(f) && {
                if frame.is_video() && frame.spec_video().data@.len() >= yuv_total(
                    self.src_width as int,
                    self.src_height as int,
                ) && yuv_total(self.src_width as int, self.src_height as int) <= usize::MAX / 2
                    && yuv_total(self.width as int, self.height as int) <= usize::MAX / 2 {
                    &&& f.is_video()
                    &&& f.spec_video().data@ == crop_frame_bytes(
                        frame.spec_video().data@,
                        self.src_width as int,
                        self.src_height as int,
                        self.x as int,
                        self.y as int,
                        self.width as int,
                        self.height as int,
                    )
                    &&& f.spec_video().width == frame.spec_video().width
                    &&& f.spec_video().height == frame.spec_video().height
                    &&& f.spec_video().format == frame.spec_video().format
                    &&& f.pts == frame.pts && f.timebase == frame.timebase && f.stream_index
                        == frame.stream_index
                } else {
                    true
                }
            },
    {
        match &frame.data {
            FrameData::Audio(_) => Ok(duplicate_frame(frame)),
            FrameData::Video(v) => {
                let (src_y, src_uv) = match checked_plane_sizes(self.src_width, self.src_height) {
                    Some(p) => p,
                    None => {
                        return Ok(duplicate_frame(frame));
                    },
                };
                let (dst_y, dst_uv) = match checked_plane_sizes(self.width, self.height) {
                    Some(p) => p,
                    None => {
                        return Ok(duplicate_frame(frame));
                    },
                };
                if v.data.len() < src_y + 2 * src_uv {
                    return Ok(duplicate_frame(frame));
                }
                let mut dst: Vec<u8> = vec![0u8; dst_y + 2 * dst_uv];
                crop_plane(
                    &v.data,
                    0,
                    src_y,
                    &mut dst,
                    0,
                    self.src_width as usize,
                    self.x as usize,
                    self.y as usize,
                    self.width as usize,
                    self.height as usize,
                );
                let s_uvw = (self.src_width / 2) as usize;
                let c_uvw = (self.width / 2) as usize;
                let c_uvh = (self.height / 2) as usize;
                crop_plane(
                    &v.data,
                    src_y,
                    src_uv,
                    &mut dst,
                    dst_y,
                    s_uvw,
                    (self.x / 2) as usize,
                    (self.y / 2) as usize,
                    c_uvw,
                    c_uvh,
                );
                crop_plane(
                    &v.data,
                    src_y + src_uv,
                    src_uv,
                    &mut dst,
                    dst_y + dst_uv,
                    s_uvw,
                    (self.x / 2) as usize,
                    (self.y / 2) as usize,
                    c_uvw,
                    c_uvh,
                );
                proof {
                    assert(dst@ =~= crop_frame_bytes(
                        v.data@,
                        self.src_width as int,
                        self.src_height as int,
                        self.x as int,
                        self.y as int,
                        self.width as int,
                        self.height as int,
                    ));
                }
                Ok(
                    Frame {
                        data: FrameData::Video(
                            FrameVideo { data: dst, width: v.width, height: v.height, format: v.format },
                        ),
                        pts: frame.pts,
                        timebase: frame.timebase,
                        stream_index: frame.stream_index,
                    },
                )
            },
        }
    }
}

/// Writes the cropped plane of `src[src_off .. src_off + src_size]` into
/// `dst[dst_off ..]`.
#[verifier::loop_isolation(false)]
fn crop_plane(
    src: &Vec<u8>,
    src_off: usize,
    src_size: usize,
    dst: &mut Vec<u8>,
    dst_off: usize,
    src_w: usize,
    x0: usize,
    y0: usize,
    cw: usize,
    ch: usize,
)
    requires
        src_off + src_size <= src@.len(),
        dst_off + cw * ch <= old(dst)@.len(),
        cw * ch <= usize::MAX,
        x0 <= u32::MAX && y0 <= u32::MAX && src_w <= u32::MAX && ch <= u32::MAX && cw
            <= u32::MAX,
    ensures
        final(dst)@.len() == old(dst)@.len(),
        forall|j: int|
            0 <= j < old(dst)@.len() && !(dst_off <= j < dst_off + cw * ch) ==> final(dst)@[j]
                == old(dst)@[j],
        final(dst)@.subrange(dst_off as int, dst_off + cw * ch) == crop_plane_of(
            src@.subrange(src_off as int, src_off + src_size),
            src_w as int,
            x0 as int,
            y0 as int,
            cw as int,
            ch as int,
        ),
{
    let ghost plane = src@.subrange(src_off as int, src_off + src_size);
    let src_len = src.len();
    let dst_len = dst.len();
    let total = cw * ch;
    if cw == 0 {
        proof {
            assert(final(dst)@.subrange(dst_off as int, dst_off + cw * ch) =~= crop_plane_of(
                plane,
                src_w as int,
                x0 as int,
                y0 as int,
                cw as int,
                ch as int,
            ));
        }
        return ;
    }
    let mut k: usize = 0;
    while k < total
        invariant
            cw >= 1,
            total == cw * ch,
            src_off + src_size <= src_len && src_len == src@.len(),
            dst_off + total <= dst_len && dst_len == dst@.len(),
            dst@.len() == old(dst)@.len(),
            x0 <= u32::MAX && y0 <= u32::MAX && src_w <= u32::MAX && ch <= u32::MAX && cw
                <= u32::MAX,
            k <= total,
            forall|j: int|
                0 <= j < dst@.len() && !(dst_off <= j < dst_off + k) ==> dst@[j] == old(dst)@[j],
            forall|j: int|
                0 <= j < k ==> dst@[dst_off + j] == crop_plane_of(
                    plane,
                    src_w as int,
                    x0 as int,
                    y0 as int,
                    cw as int,
                    ch as int,
                )[j],
        decreases total - k,
    {
        let x = k % cw;
        let y = k / cw;
        proof {
            assert(ch >= 1) by (nonlinear_arith)
                requires
                    0 <= k < cw * ch && cw >= 1 && ch >= 0,
            ;
            vstd::arithmetic::div_mod::lemma_mod_bound(k as int, cw as int);
            vstd::arithmetic::div_mod::lemma_fundamental_div_mod(k as int, cw as int);
            assert(y < ch) by (nonlinear_arith)
                requires
                    k < cw * ch && cw >= 1 && y == k as int / cw as int && k >= 0 && ch >= 1,
            ;
            vstd::arithmetic::mul::lemma_mul_upper_bound(
                (y0 + y) as int,
                0x2_0000_0000,
                src_w as int,
                0x1_0000_0000,
            );
            vstd::arithmetic::mul::lemma_mul_nonnegative((y0 + y) as int, src_w as int);
        }
        let si128: u128 = (y0 as u128 + y as u128) * src_w as u128 + (x0 as u128 + x as u128);
        let b = if si128 < src_size as u128 {
            let si = si128 as usize;
            src[src_off + si]
        } else {
            0
        };
        dst.set(dst_off + k, b);
        proof {
            let si = (y0 + y) as int * src_w as int + (x0 + x) as int;
            if si < src_size {
                assert(plane[si] == src@[src_off + si]);
            }
        }
        k = k + 1;
    }
    proof {
        assert(dst@.subrange(dst_off as int, dst_off + cw * ch) =~= crop_plane_of(
            plane,
            src_w as int,
            x0 as int,
            y0 as int,
            cw as int,
            ch as int,
        ));
    }
}

/// Cropping the full frame is the identity: a window at the origin with the
/// source dimensions reads every plane byte back in place.
pub proof fn lemma_crop_plane_identity(p: Seq<u8>, w: int, h: int)
    requires
        w >= 0,
        h >= 0,
        p.len() == w * h,
    ensures
        crop_plane_of(p, w, 0, 0, w, h) == p,
{
    assert forall|k: int| 0 <= k < p.len() implies crop_plane_of(p, w, 0, 0, w, h)[k] == p[k] by {
        assert(w >= 1 && h >= 1) by (nonlinear_arith)
            requires
                0 <= k < w * h && w >= 0 && h >= 0,
        ;
        let x = k % w;
        let y = k / w;
        vstd::arithmetic::div_mod::lemma_mod_bound(k, w);
        vstd::arithmetic::div_mod::lemma_fundamental_div_mod(k, w);
        vstd::arithmetic::mul::lemma_mul_is_commutative(w, y);
        assert(y * w + x == k);
    }
    assert(crop_plane_of(p, w, 0, 0, w, h) =~= p);
}

/// Cropping a whole frame at the full dimensions gives back its planes.
#[verifier::rlimit(100)]
pub proof fn lemma_crop_identity(data: Seq<u8>, w: int, h: int)
    requires
        w >= 0,
        h >= 0,
        data.len() == yuv_total(w, h),
    ensures
        crop_frame_bytes(data, w, h, 0, 0, w, h) == data,
{
    let ys = w * h;
    let uvw = w / 2;
    let uvh = h / 2;
    let uvs = uvw * uvh;
    vstd::arithmetic::mul::lemma_mul_nonnegative(uvw, uvh);
    vstd::arithmetic::mul::lemma_mul_nonnegative(w, h);
    let p0 = data.subrange(0, ys);
    let p1 = data.subrange(ys, ys + uvs);
    let p2 = data.subrange(ys + uvs, ys + 2 * uvs);
    lemma_crop_plane_identity(p0, w, h);
    lemma_crop_plane_identity(p1, uvw, uvh);
    lemma_crop_plane_identity(p2, uvw, uvh);
    assert(crop_frame_bytes(data, w, h, 0, 0, w, h) == p0 + p1 + p2);
    assert(p0 + p1 + p2 =~= data);
}

} // verus!
