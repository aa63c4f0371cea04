use vstd::prelude::*;

use crate::io::error::IoResult;
use crate::model::frame::{Frame, FrameData, FrameVideo};
use crate::transform::video::{checked_plane_sizes, duplicate_frame, yuv_total};

verus! {

/// One plane laid into a larger canvas at offset `(x0, y0)`; everything
/// outside the copied window holds the fill byte.
pub open spec fn pad_plane_of(
    p: Seq<u8>,
    sw: int,
    sh: int,
    dw: int,
    dh: int,
    x0: int,
    y0: int,
    fill: u8,
) -> Seq<u8>
    recommends
        sw >= 0,
        sh >= 0,
        dw >= 0,
        dh >= 0,
{
    Seq::new(
        (dw * dh) as nat,
        |k: int|
            {
                let x = k % dw;
                let y = k / dw;
                if x0 <= x < x0 + sw && y0 <= y < y0 + sh {
                    let si = (y - y0) * sw + (x - x0);
                    if 0 <= si < p.len() {
                        p[si]
                    } else {
                        fill
                    }
                } else {
                    fill
                }
            },
    )
}

/// All three planes padded; the chroma canvas uses the halved geometry and
/// its own fill bytes.
pub open spec fn pad_frame_bytes(
    data: Seq<u8>,
    sw: int,
    sh: int,
    dw: int,
    dh: int,
    x0: int,
    y0: int,
    fy: u8,
    fu: u8,
    fv: u8,
) -> Seq<u8> {
    let ys = sw * sh;
    let uvs = (sw / 2) * (sh / 2);
    pad_plane_of(data.subrange(0, ys), sw, sh, dw, dh, x0, y0, fy) + pad_plane_of(
        data.subrange(ys, ys + uvs),
        sw / 2,
        sh / 2,
        dw / 2,
        dh / 2,
        x0 / 2,
        y0 / 2,
        fu,
    ) + pad_plane_of(
        data.subrange(ys + uvs, ys + 2 * uvs),
        sw / 2,
        sh / 2,
        dw / 2,
        dh / 2,
        x0 / 2,
        y0 / 2,
        fv,
    )
}

/// Lays YUV 4:2:0 frames of the configured source dimensions into a larger
/// canvas filled with a solid colour. Audio frames and frames too short for
/// the dimensions pass through unchanged.
pub struct Pad {
    pub src_width: u32,
    pub src_height: u32,
    pub dst_width: u32,
    pub dst_height: u32,
    pub x: u32,
    pub y: u32,
    pub fill_y: u8,
    pub fill_u: u8,
    pub fill_v: u8,
}

impl Pad {
    pub fn new(src_width: u32, src_height: u32, dst_width: u32, dst_height: u32, x: u32, y: u32)
        -> (r: Pad)
        ensures
            r == (Pad {
                src_width,
                src_height,
                dst_width,
                dst_height,
                x,
                y,
                fill_y: 16u8,
                fill_u: 128u8,
                fill_v: 128u8,
            }),
    {
        Pad {
            src_width,
            src_height,
            dst_width,
            dst_height,
            x,
            y,
            fill_y: 16,
            fill_u: 128,
            fill_v: 128,
        }
    }

    pub fn center(src_width: u32, src_height: u32, dst_width: u32, dst_height: u32) -> (r: Pad)
        ensures
            r.src_width == src_width && r.src_height == src_height && r.dst_width == dst_width
                && r.dst_height == dst_height,
            r.fill_y == 16u8 && r.fill_u == 128u8 && r.fill_v == 128u8,
    {
        let x = if dst_width >= src_width {
            (dst_width - src_width) / 2
        } else {
            0
        };
        let y = if dst_height >= src_height {
            (dst_height - src_height) / 2
        } else {
            0
        };
        Pad::new(src_width, src_height, dst_width, dst_height, x, y)
    }

    pub fn with_color(self, y: u8, u: u8, v: u8) -> (r: Pad)
        ensures
            r == (Pad { fill_y: y, fill_u: u, fill_v: v, ..self }),
    {
        Pad { fill_y: y, fill_u: u, fill_v: v, ..self }
    }

    pub fn with_black(self) -> (r: Pad)
        ensures
            r == (Pad { fill_y: 16u8, fill_u: 128u8, fill_v: 128u8, ..self }),
    {
        self.with_color(16, 128, 128)
    }

    pub fn output_dimensions(&self) -> (r: (u32, u32))
        ensures
            r == (self.dst_width, self.dst_height),
    {
        (self.dst_width, self.dst_height)
    }

    /// Builds the padded frame at the destination dimensions; the frame's
    /// position rides along unchanged.
    #[verifier::loop_isolation(false)]
    pub fn apply_yuv420(&self, frame: &Frame) -> (r: IoResult<Frame>)
        ensures
            r matches Ok(f) && {
                if frame.is_video() && frame.spec_video().data@.len() >= yuv_total(
                    self.src_width as int,
                    self.src_height as int,
                ) && yuv_total(self.src_width as int, self.src_height as int) <= usize::MAX / 2
                    && yuv_total(self.dst_width as int, self.dst_height as int) <= usize::MAX / 2 {
                    &&& f.is_video()
                    &&& f.spec_video().data@ == pad_frame_bytes(
                        frame.spec_video().data@,
                        self.src_width as int,
                        self.src_height as int,
                        self.dst_width as int,
                        self.dst_height as int,
                        self.x as int,
                        self.y as int,
                        self.fill_y,
                        self.fill_u,
                        self.fill_v,
                    )
                    &&& f.spec_video().width == self.dst_width
                    &&& f.spec_video().height == self.dst_height
                    &&& f.spec_video().format == frame.spec_video().format
                    &&& f.pts == frame.pts && f.timebase == frame.timebase && f.stream_index
                        == frame.stream_index
                } else {
                    true
                }
            },
    {
        match &frame.data {
            FrameData::Audio(_) => Ok(duplicate_frame(frame)),
            FrameData::Video(v) => {
                let (src_y, src_uv) = match checked_plane_sizes(self.src_width, self.src_height) {
                    Some(p) => p,
                    None => {
                        return Ok(duplicate_frame(frame));
                    },
                };
                let (dst_y, dst_uv) = match checked_plane_sizes(self.dst_width, self.dst_height) {
                    Some(p) => p,
                    None => {
                        return Ok(duplicate_frame(frame));
                    },
                };
                if v.data.len() < src_y + 2 * src_uv {
                    return Ok(duplicate_frame(frame));
                }
                let mut dst: Vec<u8> = vec![0u8; dst_y + 2 * dst_uv];
                pad_plane(
                    &v.data,
                    0,
                    src_y,
                    &mut dst,
                    0,
                    self.src_width as usize,
                    self.src_height as usize,
                    self.dst_width as usize,
                    self.dst_height as usize,
                    self.x as usize,
                    self.y as usize,
                    self.fill_y,
                );
                let s_uvw = (self.src_width / 2) as usize;
                let s_uvh = (self.src_height / 2) as usize;
                let d_uvw = (self.dst_width / 2) as usize;
                let d_uvh = (self.dst_height / 2) as usize;
                pad_plane(
                    &v.data,
                    src_y,
                    src_uv,
                    &mut dst,
                    dst_y,
                    s_uvw,
                    s_uvh,
                    d_uvw,
                    d_uvh,
                    (self.x / 2) as usize,
                    (self.y / 2) as usize,
                    self.fill_u,
                );
                pad_plane(
                    &v.data,
                    src_y + src_uv,
                    src_uv,
                    &mut dst,
                    dst_y + dst_uv,
                    s_uvw,
                    s_uvh,
                    d_uvw,
                    d_uvh,
                    (self.x / 2) as usize,
                    (self.y / 2) as usize,
                    self.fill_v,
                );
                proof {
                    assert(dst@ =~= pad_frame_bytes(
                        v.data@,
                        self.src_width as int,
                        self.src_height as int,
                        self.dst_width as int,
                        self.dst_height as int,
                        self.x as int,
                        self.y as int,
                        self.fill_y,
                        self.fill_u,
                        self.fill_v,
                    ));
                }
                Ok(
                    Frame {
                        data: FrameData::Video(
                            FrameVideo {
                                data: dst,
                                width: self.dst_width,
                                height: self.dst_height,
                                format: v.format,
                            },
                        ),
                        pts: frame.pts,
                        timebase: frame.timebase,
                        stream_index: frame.stream_index,
                    },
                )
            },
        }
    }
}

/// Writes the padded plane of `src[src_off .. src_off + src_size]` into
/// `dst[dst_off ..]`.
#[verifier::loop_isolation(false)]
fn pad_plane(
    src: &Vec<u8>,
    src_off: usize,
    src_size: usize,
    dst: &mut Vec<u8>,
    dst_off: usize,
    sw: usize,
    sh: usize,
    dw: usize,
    dh: usize,
    x0: usize,
    y0: usize,
    fill: u8,
)
    requires
        src_off + src_size <= src@.len(),
        dst_off + dw * dh <= old(dst)@.len(),
        dw * dh <= usize::MAX,
        sw <= u32::MAX && sh <= u32::MAX && dw <= u32::MAX && dh <= u32::MAX && x0 <= u32::MAX
            && y0 <= u32::MAX,
    ensures
        final(dst)@.len() == old(dst)@.len(),
        forall|j: int|
            0 <= j < old(dst)@.len() && !(dst_off <= j < dst_off + dw * dh) ==> final(dst)@[j]
                == old(dst)@[j],
        final(dst)@.subrange(dst_off as int, dst_off + dw * dh) == pad_plane_of(
            src@.subrange(src_off as int, src_off + src_size),
            sw as int,
            sh as int,
            dw as int,
            dh as int,
            x0 as int,
            y0 as int,
            fill,
        ),
{
    let ghost plane = src@.subrange(src_off as int, src_off + src_size);
    let src_len = src.len();
    let dst_len = dst.len();
    let total = dw * dh;
    if dw == 0 || dh == 0 {
        proof {
            assert(dw * dh == 0) by (nonlinear_arith)
                requires
                    (dw == 0 || dh == 0) && dw >= 0 && dh >= 0,
            ;
            assert(final(dst)@.subrange(dst_off as int, dst_off + dw * dh) =~= pad_plane_of(
                plane,
                sw as int,
                sh as int,
                dw as int,
                dh as int,
                x0 as int,
                y0 as int,
                fill,
            ));
        }
        return ;
    }
    let mut k: usize = 0;
    while k < total
        invariant
            dw >= 1 && dh >= 1,
            total == dw * dh,
            src_off + src_size <= src_len && src_len == src@.len(),
            dst_off + total <= dst_len && dst_len == dst@.len(),
            dst@.len() == old(dst)@.len(),
            sw <= u32::MAX && sh <= u32::MAX && dw <= u32::MAX && dh <= u32::MAX && x0
                <= u32::MAX && y0 <= u32::MAX,
            k <= total,
            forall|j: int|
                0 <= j < dst@.len() && !(dst_off <= j < dst_off + k) ==> dst@[j] == old(dst)@[j],
            forall|j: int|
                0 <= j < k ==> dst@[dst_off + j] == pad_plane_of(
                    plane,
                    sw as int,
                    sh as int,
                    dw as int,
                    dh as int,
                    x0 as int,
                    y0 as int,
                    fill,
                )[j],
        decreases total - k,
    {
        let x = k % dw;
        let y = k / dw;
        proof {
            vstd::arithmetic::div_mod::lemma_mod_bound(k as int, dw as int);
            vstd::arithmetic::div_mod::lemma_fundamental_div_mod(k as int, dw as int);
            assert(y < dh) by (nonlinear_arith)
                requires
                    k < dw * dh && dw >= 1 && y == k as int / dw as int && k >= 0 && dh >= 1,
            ;
        }
        let b: u8 = if x >= x0 && (x as u64) < x0 as u64 + sw as u64 && y >= y0 && (y as u64)
            < y0 as u64 + sh as u64 {
            proof {
                vstd::arithmetic::mul::lemma_mul_upper_bound(
                    (y - y0) as int,
                    0x1_0000_0000,
                    sw as int,
                    0x1_0000_0000,
                );
                vstd::arithmetic::mul::lemma_mul_nonnegative((y - y0) as int, sw as int);
            }
            let si128: u128 = (y - y0) as u128 * sw as u128 + (x - x0) as u128;
            if si128 < src_size as u128 {
                let si = si128 as usize;
                let v = src[src_off + si];
                proof {
                    assert(plane[si as int] == src@[src_off + si]);
                }
                v
            } else {
                fill
            }
        } else {
            fill
        };
        dst.set(dst_off + k, b);
        k = k + 1;
    }
    proof {
        assert(dst@.subrange(dst_off as int, dst_off + dw * dh) =~= pad_plane_of(
            plane,
            sw as int,
            sh as int,
            dw as int,
            dh as int,
            x0 as int,
            y0 as int,
            fill,
        ));
    }
}

} // verus!
