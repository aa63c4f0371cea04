use vstd::prelude::*;

use crate::model::time::Timebase;

verus! {

/// Pixel layout of a video frame. Only planar YUV 4:2:0 is produced by the
/// decoders in this crate: a full-resolution Y plane followed by
/// quarter-resolution U and V planes.
#[derive(Debug, Clone, Copy, PartialEq, Eq, Structural)]
pub enum VideoFormat {
    YUV420,
}

/// Decoded audio: interleaved signed 16-bit little-endian samples, the
/// canonical intermediate form of the pipeline.
#[derive(Debug, Clone)]
pub struct FrameAudio {
    pub data: Vec<u8>,
    pub sample_rate: u32,
    pub channels: u8,
    pub nb_samples: usize,
}

impl FrameAudio {
    /// The byte buffer holds exactly `nb_samples` interleaved 16-bit samples
    /// for every channel.
    pub open spec fn wf(self) -> bool {
        self.data@.len() == self.nb_samples * self.channels * 2
    }

    pub fn new(data: Vec<u8>, sample_rate: u32, channels: u8) -> (r: FrameAudio)
        ensures
            r.data == data,
            r.sample_rate == sample_rate,
            r.channels == channels,
            r.nb_samples == 0,
    {
        FrameAudio { data, sample_rate, channels, nb_samples: 0 }
    }

    pub fn with_nb_samples(self, nb_samples: usize) -> (r: FrameAudio)
        ensures
            r == (FrameAudio { nb_samples, ..self }),
    {
        FrameAudio { nb_samples, ..self }
    }
}

/// Decoded video: planar pixel data of the given dimensions.
#[derive(Debug, Clone)]
pub struct FrameVideo {
    pub data: Vec<u8>,
    pub width: u32,
    pub height: u32,
    pub format: VideoFormat,
}

impl FrameVideo {
    /// A well-formed YUV 4:2:0 frame has even dimensions and carries at
    /// least one full set of planes.
    pub open spec fn wf(self) -> bool {
        &&& self.width % 2 == 0
        &&& self.height % 2 == 0
        &&& self.data@.len() >= self.width * self.height + 2 * ((self.width / 2) * (self.height
            / 2))
    }

    pub fn new(data: Vec<u8>, width: u32, height: u32, format: VideoFormat) -> (r: FrameVideo)
        ensures
            r == (FrameVideo { data, width, height, format }),
    {
        FrameVideo { data, width, height, format }
    }
}

/// The payload of a decoded frame: one media kind at a time.
#[derive(Debug, Clone)]
pub enum FrameData {
    Audio(FrameAudio),
    Video(FrameVideo),
}

/// A decoded unit. Frames exist between a decoder and an encoder in a single
/// pipeline pass and are exclusively owned by the stage holding them.
#[derive(Debug, Clone)]
pub struct Frame {
    pub data: FrameData,
    pub pts: i64,
    pub timebase: Timebase,
    pub stream_index: usize,
}

impl Frame {
    pub open spec fn is_audio(self) -> bool {
        self.data is Audio
    }

    pub open spec fn is_video(self) -> bool {
        self.data is Video
    }

    pub open spec fn spec_audio(self) -> FrameAudio {
        self.data->Audio_0
    }

    pub open spec fn spec_video(self) -> FrameVideo {
        self.data->Video_0
    }

    pub fn new_audio(audio: FrameAudio, timebase: Timebase, stream_index: usize) -> (r: Frame)
        ensures
            r == (Frame { data: FrameData::Audio(audio), pts: 0, timebase, stream_index }),
    {
        Frame { data: FrameData::Audio(audio), pts: 0, timebase, stream_index }
    }

    pub fn new_video(video: FrameVideo, timebase: Timebase, stream_index: usize) -> (r: Frame)
        ensures
            r == (Frame { data: FrameData::Video(video), pts: 0, timebase, stream_index }),
    {
        Frame { data: FrameData::Video(video), pts: 0, timebase, stream_index }
    }

    pub fn with_pts(self, pts: i64) -> (r: Frame)
        ensures
            r == (Frame { pts, ..self }),
    {
        Frame { pts, ..self }
    }

    pub fn audio(&self) -> (r: Option<&FrameAudio>)
        ensures
            self.is_audio() ==> (r matches Some(a) && *a == self.spec_audio()),
            !self.is_audio() ==> r is None,
    {
        match &self.data {
            FrameData::Audio(a) => Some(a),
            FrameData::Video(_) => None,
        }
    }

    pub fn video(&self) -> (r: Option<&FrameVideo>)
        ensures
            self.is_video() ==> (r matches Some(v) && *v == self.spec_video()),
            !self.is_video() ==> r is None,
    {
        match &self.data {
            FrameData::Audio(_) => None,
            FrameData::Video(v) => Some(v),
        }
    }
}

} // verus!
