use vstd::prelude::*;

use crate::io::error::IoResult;
use crate::model::frame::{Frame, FrameData, FrameVideo};
use crate::transform::video::{checked_plane_sizes, duplicate_frame, yuv_total};

verus! {

/// A box blur over YUV 4:2:0 frames of the configured dimensions: each
/// pixel becomes the average of the window of the given radius around it,
/// clipped to the plane. Audio frames and frames too short for the
/// dimensions pass through unchanged.
pub struct Blur {
    pub width: u32,
    pub height: u32,
    pub radius: u32,
}

impl Blur {
    pub fn new(width: u32, height: u32, radius: u32) -> (r: Blur)
        ensures
            r == (Blur { width, height, radius }),
    {
        Blur { width, height, radius }
    }

    /// Builds the blurred frame: the plane layout, the byte count, the
    /// dimension fields and the position all stay; each output byte is some
    /// window average of the source plane.
    #[verifier::loop_isolation(false)]
    pub fn apply_yuv420(&self, frame: &Frame) -> (r: IoResult<Frame>)
        ensures
            r matches Ok(f) && {
                if frame.is_video() && frame.spec_video().data@.len() >= yuv_total(
                    self.width as int,
                    self.height as int,
                ) && yuv_total(self.width as int, self.height as int) <= usize::MAX / 2 {
                    &&& f.is_video()
                    &&& f.spec_video().data@.len() == yuv_total(
                        self.width as int,
                        self.height as int,
                    )
                    &&& f.spec_video().width == frame.spec_video().width
                    &&& f.spec_video().height == frame.spec_video().height
                    &&& f.spec_video().format == frame.spec_video().format
                    &&& f.pts == frame.pts && f.timebase == frame.timebase && f.stream_index
                        == frame.stream_index
                } else {
                    true
                }
            },
    {
        match &frame.data {
            FrameData::Audio(_) => Ok(duplicate_frame(frame)),
            FrameData::Video(v) => {
                let (y_size, uv_size) = match checked_plane_sizes(self.width, self.height) {
                    Some(p) => p,
                    None => {
                        return Ok(duplicate_frame(frame));
                    },
                };
                if v.data.len() < y_size + 2 * uv_size {
                    return Ok(duplicate_frame(frame));
                }
                let mut dst: Vec<u8> = vec![0u8; y_size + 2 * uv_size];
                blur_plane(&v.data, 0, y_size, &mut dst, 0, self.width as usize, self.height as usize, self.radius);
                let uv_w = (self.width / 2) as usize;
                let uv_h = (self.height / 2) as usize;
                blur_plane(&v.data, y_size, uv_size, &mut dst, y_size, uv_w, uv_h, self.radius);
                blur_plane(
                    &v.data,
                    y_size + uv_size,
                    uv_size,
                    &mut dst,
                    y_size + uv_size,
                    uv_w,
                    uv_h,
                    self.radius,
                );
                Ok(
                    Frame {
                        data: FrameData::Video(
                            FrameVideo { data: dst, width: v.width, height: v.height, format: v.format },
                        ),
                        pts: frame.pts,
                        timebase: frame.timebase,
                        stream_index: frame.stream_index,
                    },
                )
            },
        }
    }
}

/// Averages the window around each pixel of one plane. The radius is
/// clipped to the plane edges; the window is never empty.
#[verifier::loop_isolation(false)]
fn blur_plane(
    src: &Vec<u8>,
    src_off: usize,
    src_size: usize,
    dst: &mut Vec<u8>,
    dst_off: usize,
    w: usize,
    h: usize,
    radius: u32,
)
    requires
        src_off + src_size <= src@.len(),
        dst_off + w * h <= old(dst)@.len(),
        w * h <= usize::MAX,
        w <= u32::MAX && h <= u32::MAX,
    ensures
        final(dst)@.len() == old(dst)@.len(),
        forall|j: int|
            0 <= j < old(dst)@.len() && !(dst_off <= j < dst_off + w * h) ==> final(dst)@[j]
                == old(dst)@[j],
{
    let src_len = src.len();
    let dst_len = dst.len();
    let total = w * h;
    if w == 0 || h == 0 {
        return ;
    }
    let r: usize = if radius as u64 > u32::MAX as u64 {
        u32::MAX as usize
    } else {
        radius as usize
    };
    let mut k: usize = 0;
    while k < total
        invariant
            w >= 1 && h >= 1,
            total == w * h,
            src_off + src_size <= src_len && src_len == src@.len(),
            dst_off + total <= dst_len && dst_len == dst@.len(),
            dst@.len() == old(dst)@.len(),
            w <= u32::MAX && h <= u32::MAX,
            r <= u32::MAX,
            k <= total,
            forall|j: int|
                0 <= j < dst@.len() && !(dst_off <= j < dst_off + k) ==> dst@[j] == old(dst)@[j],
        decreases total - k,
    {
        let x = k % w;
        let y = k / w;
        proof {
            vstd::arithmetic::div_mod::lemma_mod_bound(k as int, w as int);
            vstd::arithmetic::div_mod::lemma_fundamental_div_mod(k as int, w as int);
            assert(y < h) by (nonlinear_arith)
                requires
                    k < w * h && w >= 1 && y == k as int / w as int && k >= 0 && h >= 1,
            ;
        }
        let x_lo = if x > r {
            x - r
        } else {
            0
        };
        let x_hi = if (x as u64 + r as u64) < (w - 1) as u64 {
            x + r
        } else {
            w - 1
        };
        let y_lo = if y > r {
            y - r
        } else {
            0
        };
        let y_hi = if (y as u64 + r as u64) < (h - 1) as u64 {
            y + r
        } else {
            h - 1
        };
        let mut sum: u64 = 0;
        let mut count: u64 = 0;
        let mut yy = y_lo;
        while yy <= y_hi
            invariant
                y_hi < h,
                x_lo <= x_hi < w,
                w >= 1 && h >= 1,
                w <= u32::MAX && h <= u32::MAX,
                src_off + src_size <= src_len && src_len == src@.len(),
                count <= 0x1_0000_0000_0000u64,
                sum <= 255 * count,
            decreases h - yy,
        {
            let mut xx = x_lo;
            while xx <= x_hi
                invariant
                    y_hi < h,
                    yy < h,
                    x_lo <= x_hi < w,
                    w >= 1 && h >= 1,
                    w <= u32::MAX && h <= u32::MAX,
                    src_off + src_size <= src_len && src_len == src@.len(),
                    count <= 0x1_0000_0000_0000u64,
                    sum <= 255 * count,
                decreases w - xx,
            {
                proof {
                    vstd::arithmetic::mul::lemma_mul_upper_bound(
                        yy as int,
                        0x1_0000_0000,
                        w as int,
                        0x1_0000_0000,
                    );
                    vstd::arithmetic::mul::lemma_mul_nonnegative(yy as int, w as int);
                }
                let idx128: u128 = yy as u128 * w as u128 + xx as u128;
                if idx128 < src_size as u128 && count < 0x1_0000_0000_0000u64 {
                    let idx = idx128 as usize;
                    sum = sum + src[src_off + idx] as u64;
                    count = count + 1;
                }
                xx = xx + 1;
            }
            yy = yy + 1;
        }
        let avg: u8 = if count > 0 {
            let q = sum / count;
            if q > 255 {
                255
            } else {
                q as u8
            }
        } else {
            0
        };
        dst.set(dst_off + k, avg);
        k = k + 1;
    }
}

} // verus!
