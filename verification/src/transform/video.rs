pub mod blur;
pub mod brightness;
pub mod crop;
pub mod flip;
pub mod pad;
pub mod rotate;
pub mod scale;

pub use blur::Blur;
pub use brightness::Brightness;
pub use crop::Crop;
pub use flip::{Flip, FlipDirection};
pub use pad::Pad;
pub use rotate::{Rotate, RotateAngle};
pub use scale::{Scale, ScaleMode};

use vstd::prelude::*;

use crate::model::frame::{Frame, FrameAudio, FrameData, FrameVideo};

verus! {

/// A frame rebuilt with fresh buffers: same media kind, same bytes, same
/// position.
pub fn duplicate_frame(frame: &Frame) -> (r: Frame)
    ensures
        r.pts == frame.pts && r.timebase == frame.timebase && r.stream_index == frame.stream_index,
        frame.is_audio() ==> r.is_audio() && r.spec_audio().data@ == frame.spec_audio().data@
            && r.spec_audio().sample_rate == frame.spec_audio().sample_rate
            && r.spec_audio().channels == frame.spec_audio().channels && r.spec_audio().nb_samples
            == frame.spec_audio().nb_samples,
        frame.is_video() ==> r.is_video() && r.spec_video().data@ == frame.spec_video().data@
            && r.spec_video().width == frame.spec_video().width && r.spec_video().height
            == frame.spec_video().height && r.spec_video().format == frame.spec_video().format,
{
    match &frame.data {
        FrameData::Audio(a) => Frame {
            data: FrameData::Audio(
                FrameAudio {
                    data: vstd::slice::slice_to_vec(a.data.as_slice()),
                    sample_rate: a.sample_rate,
                    channels: a.channels,
                    nb_samples: a.nb_samples,
                },
            ),
            pts: frame.pts,
            timebase: frame.timebase,
            stream_index: frame.stream_index,
        },
        FrameData::Video(v) => Frame {
            data: FrameData::Video(
                FrameVideo {
                    data: vstd::slice::slice_to_vec(v.data.as_slice()),
                    width: v.width,
                    height: v.height,
                    format: v.format,
                },
            ),
            pts: frame.pts,
            timebase: frame.timebase,
            stream_index: frame.stream_index,
        },
    }
}

/// The Y, U, V plane sizes of a frame of the given dimensions, and their
/// total, computed wide enough not to wrap.
pub open spec fn yuv_total(w: int, h: int) -> int {
    w * h + 2 * ((w / 2) * (h / 2))
}

/// Plane sizes as addressable counts, or nothing when the frame could not
/// be addressed in memory.
pub fn checked_plane_sizes(w: u32, h: u32) -> (r: Option<(usize, usize)>)
    ensures
        r matches Some((y, uv)) ==> y == w * h && uv == (w / 2) * (h / 2) && yuv_total(
            w as int,
            h as int,
        ) <= usize::MAX,
        r is None ==> yuv_total(w as int, h as int) > usize::MAX / 2,
{
    proof {
        vstd::arithmetic::mul::lemma_mul_upper_bound(
            w as int,
            u32::MAX as int,
            h as int,
            u32::MAX as int,
        );
        vstd::arithmetic::mul::lemma_mul_upper_bound(
            w as int / 2,
            u32::MAX as int,
            h as int / 2,
            u32::MAX as int,
        );
        vstd::arithmetic::mul::lemma_mul_nonnegative(w as int / 2, h as int / 2);
    }
    let y: u64 = w as u64 * h as u64;
    let uv: u64 = (w / 2) as u64 * (h / 2) as u64;
    let total: u128 = y as u128 + 2 * uv as u128;
    if total > (usize::MAX / 2) as u128 {
        None
    } else {
        Some((y as usize, uv as usize))
    }
}

} // verus!
