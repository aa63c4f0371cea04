pub mod analyze;

pub use analyze::{analyze_avi, analyze_flac, analyze_mp4, analyze_wav, analyze_y4m};

use vstd::prelude::*;

use crate::cli::pipeline::MediaType;
use crate::io::error::{IoError, IoResult};

verus! {

/// What the inspection mode reports and how much of it.
#[derive(Debug, Clone, Copy)]
pub struct ShowOptions {
    pub json: bool,
    pub stream_filter: Option<usize>,
    pub frame_limit: usize,
    pub hex_limit: usize,
}

/// One stream's structural description.
#[derive(Debug, Clone)]
pub enum StreamInfo {
    Audio { index: usize, sample_rate: u32, channels: u8, bit_depth: u16 },
    Video { index: usize, width: u32, height: u32, frame_rate_num: u32, frame_rate_den: u32 },
}

/// One frame's position and size.
#[derive(Debug, Clone)]
pub struct FrameInfo {
    pub index: u64,
    pub pts: i64,
    pub keyframe: bool,
    pub size: usize,
}

/// Everything the inspection of one file surfaces: a duration estimate in
/// milliseconds, the streams, and the first frames.
#[derive(Debug, Clone)]
pub struct MediaInfo {
    pub duration_ms: u64,
    pub size: u64,
    pub streams: Vec<StreamInfo>,
    pub frames: Vec<FrameInfo>,
}

/// Inspects one file's bytes; the rendering of the result lives with the
/// caller.
pub struct Show {
    pub input_path: String,
    pub opts: ShowOptions,
}

impl Show {
    pub fn new(input_path: String, opts: ShowOptions) -> (r: Show)
        ensures
            r.input_path@ == input_path@,
    {
        Show { input_path, opts }
    }

    /// Builds the structural report for the bytes of the named file;
    /// formats the path does not name are `InvalidData`. Whatever the
    /// format, the reported size is the byte count handed in.
    pub fn run(&self, data: &Vec<u8>) -> (r: IoResult<MediaInfo>)
        ensures
            r matches Ok(mi) ==> mi.size == data@.len(),
    {
        let media_type = MediaType::from_extension(self.input_path.as_str());
        match media_type {
            MediaType::Wav => analyze_wav(data, &self.opts),
            MediaType::Y4m => analyze_y4m(data, &self.opts),
            MediaType::Flac => analyze_flac(data, &self.opts),
            MediaType::Avi => analyze_avi(data, &self.opts),
            MediaType::Mp4 => analyze_mp4(data, &self.opts),
            _ => Err(IoError::invalid_data("unsupported file format")),
        }
    }
}

} // verus!
