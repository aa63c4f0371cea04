pub mod write;

pub use write::OggWriter;

use vstd::prelude::*;

verus! {

/// The stream parameters an Ogg bitstream carries for its audio.
#[derive(Debug, Clone, Copy, PartialEq, Eq, Structural)]
pub struct OggFormat {
    pub sample_rate: u32,
    pub channels: u8,
    pub bitstream_serial: u32,
}

} // verus!
