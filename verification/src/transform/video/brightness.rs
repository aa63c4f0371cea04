use vstd::prelude::*;

use crate::io::error::IoResult;
use crate::model::frame::{Frame, FrameData, FrameVideo};
use crate::transform::video::{checked_plane_sizes, duplicate_frame, yuv_total};

verus! {

/// One luma byte moved by `delta`, clamped to its range.
pub open spec fn brighten_byte(b: u8, delta: int) -> u8 {
    let v = b + delta;
    if v < 0 {
        0u8
    } else if v > 255 {
        255u8
    } else {
        v as u8
    }
}

/// Only the Y plane moves; chroma bytes and anything beyond stay.
pub open spec fn brighten_frame_bytes(data: Seq<u8>, w: int, h: int, delta: int) -> Seq<u8> {
    Seq::new(
        data.len(),
        |i: int|
            if i < w * h {
                brighten_byte(data[i], delta)
            } else {
                data[i]
            },
    )
}

/// Adds a fixed offset to the luma plane of YUV 4:2:0 frames of the
/// configured dimensions, saturating at black and white. Audio frames and
/// frames too short for the dimensions pass through unchanged.
pub struct Brightness {
    pub delta: i32,
    pub width: u32,
    pub height: u32,
}

impl Brightness {
    /// `delta` is the luma offset in code values (a full swing is 255).
    pub fn new(width: u32, height: u32, delta: i32) -> (r: Brightness)
        ensures
            r == (Brightness { delta, width, height }),
    {
        Brightness { delta, width, height }
    }

    #[verifier::loop_isolation(false)]
    pub fn apply_yuv420(&self, frame: &Frame) -> (r: IoResult<Frame>)
        ensures
            r matches Ok(f) && {
                if frame.is_video() && frame.spec_video().data@.len() >= yuv_total(
                    self.width as int,
                    self.height as int,
                ) && yuv_total(self.width as int, self.height as int) <= usize::MAX / 2 {
                    &&& f.is_video()
                    &&& f.spec_video().data@ == brighten_frame_bytes(
                        frame.spec_video().data@,
                        self.width as int,
                        self.height as int,
                        self.delta as int,
                    )
                    &&& f.spec_video().width == frame.spec_video().width
                    &&& f.spec_video().height == frame.spec_video().height
                    &&& f.spec_video().format == frame.spec_video().format
                    &&& f.pts == frame.pts && f.timebase == frame.timebase && f.stream_index
                        == frame.stream_index
                } else {
                    true
                }
            },
    {
        match &frame.data {
            FrameData::Audio(_) => Ok(duplicate_frame(frame)),
            FrameData::Video(v) => {
                let (y_size, uv_size) = match checked_plane_sizes(self.width, self.height) {
                    Some(p) => p,
                    None => {
                        return Ok(duplicate_frame(frame));
                    },
                };
                if v.data.len() < y_size + 2 * uv_size {
                    return Ok(duplicate_frame(frame));
                }
                let mut dst: Vec<u8> = vstd::slice::slice_to_vec(v.data.as_slice());
                let mut i: usize = 0;
                while i < y_size
                    invariant
                        i <= y_size,
                        y_size == self.width * self.height,
                        dst@.len() == v.data@.len(),
                        y_size <= v.data@.len(),
                        forall|j: int|
                            0 <= j < i ==> dst@[j] == brighten_byte(v.data@[j], self.delta as int),
                        forall|j: int| i <= j < dst@.len() ==> dst@[j] == v.data@[j],
                    decreases y_size - i,
                {
                    let b = dst[i];
                    let moved: i64 = b as i64 + self.delta as i64;
                    let nb: u8 = if moved < 0 {
                        0
                    } else if moved > 255 {
                        255
                    } else {
                        moved as u8
                    };
                    dst.set(i, nb);
                    i = i + 1;
                }
                proof {
                    assert(dst@ =~= brighten_frame_bytes(
                        v.data@,
                        self.width as int,
                        self.height as int,
                        self.delta as int,
                    ));
                }
                Ok(
                    Frame {
                        data: FrameData::Video(
                            FrameVideo { data: dst, width: v.width, height: v.height, format: v.format },
                        ),
                        pts: frame.pts,
                        timebase: frame.timebase,
                        stream_index: frame.stream_index,
                    },
                )
            },
        }
    }
}

} // verus!
