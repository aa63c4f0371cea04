pub mod flac;
pub mod mp3;
pub mod ogg;
pub mod wav;
pub mod y4m;

pub use flac::{FlacFormat, FlacReader, FlacWriter};
pub use mp3::{Mp3Format, Mp3Reader, Mp3Writer};
pub use ogg::{OggFormat, OggWriter};
pub use wav::{WavFormat, WavReader, WavWriter};
pub use y4m::{Y4mFormat, Y4mReader, Y4mWriter};
