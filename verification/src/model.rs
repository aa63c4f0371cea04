pub mod frame;
pub mod packet;
pub mod time;
pub mod traits;

pub use frame::{Frame, FrameAudio, FrameData, FrameVideo, VideoFormat};
pub use packet::Packet;
pub use time::Timebase;
pub use traits::{Decoder, Demuxer, Encoder, Muxer, Transform};
