pub mod bits;
pub mod decode;
pub mod header;
pub mod sideinfo;

pub use decode::Mp3Decoder;
pub use header::{find_sync, ChannelMode, FrameHeader, Layer, MpegVersion};
pub use sideinfo::{Granule, GranuleChannel, SideInfo};
