pub mod adpcm;
pub mod flac;
pub mod g711;
pub mod mp3;
pub mod pcm;
pub mod rawvideo;
pub mod vorbis;

pub use adpcm::{AdpcmDecoder, AdpcmEncoder, MsAdpcmDecoder, MsAdpcmEncoder};
pub use flac::{FlacDecoder, FlacEncoder};
pub use g711::{AlawDecoder, AlawEncoder, UlawDecoder, UlawEncoder};
pub use mp3::Mp3Decoder;
pub use pcm::{PcmDecoder, PcmEncoder};
pub use rawvideo::{RawVideoDecoder, RawVideoEncoder};
pub use vorbis::VorbisDecoder;

use vstd::prelude::*;

use crate::io::endian;

verus! {

/// The canonical intermediate form of the pipeline is interleaved signed
/// 16-bit little-endian samples: sample `i` of a byte buffer.
pub open spec fn sample_at(b: Seq<u8>, i: int) -> int
    recommends
        0 <= i < b.len() / 2,
{
    endian::le16_signed(b[2 * i], b[2 * i + 1])
}

/// All samples of a byte buffer, channel-interleaved as stored.
pub open spec fn samples_of(b: Seq<u8>) -> Seq<int> {
    Seq::new((b.len() / 2) as nat, |i: int| sample_at(b, i))
}

} // verus!
