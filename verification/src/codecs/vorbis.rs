pub mod decode;

pub use decode::VorbisDecoder;
