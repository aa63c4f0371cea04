pub mod read;
pub mod write;

pub use read::Mp3Reader;
pub use write::Mp3Writer;

use vstd::prelude::*;

use crate::codecs::mp3::header::{ChannelMode, Layer, MpegVersion};

verus! {

/// What the first frame header of a stream announces.
#[derive(Debug, Clone, Copy, PartialEq, Eq, Structural)]
pub struct Mp3Format {
    pub version: MpegVersion,
    pub layer: Layer,
    pub channels: u8,
    pub sample_rate: u32,
    pub bitrate: u32,
    pub channel_mode: ChannelMode,
}

} // verus!
