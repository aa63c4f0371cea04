use vstd::prelude::*;

use crate::container::ogg::OggFormat;
use crate::io::error::{IoError, IoResult};
use crate::model::frame::{Frame, FrameAudio};
use crate::model::packet::Packet;
use crate::model::traits::Decoder;
use crate::transform::set_sample;

verus! {

/// What a full decode of an Ogg/Vorbis byte stream yields: the announced
/// rate and channel count, and the interleaved 16-bit samples. The result
/// depends on the bytes alone.
pub uninterp spec fn vorbis_decoded(data: Seq<u8>) -> Option<(u32, u8, Seq<i16>)>;

/// Relies on lewton's `OggStreamReader`: `new` parses the Ogg/Vorbis
/// headers of an in-memory stream and `read_dec_packet_itl` yields the
/// interleaved 16-bit samples packet by packet until the stream ends.
#[verifier::external_body]
fn vorbis_decode_all(data: &Vec<u8>) -> (r: Option<(u32, u8, Vec<i16>)>)
    ensures
        match r {
            Some((rate, ch, samples)) => vorbis_decoded(data@) matches Some((r2, c2, s2)) && rate
                == r2 && ch == c2 && samples@ == s2,
            None => vorbis_decoded(data@) is None,
        },
{
    let cursor = std::io::Cursor::new(data.clone());
    let mut reader = match lewton::inside_ogg::OggStreamReader::new(cursor) {
        Ok(r) => r,
        Err(_) => return None,
    };
    let rate = reader.ident_hdr.audio_sample_rate;
    let channels = reader.ident_hdr.audio_channels;
    let mut samples: Vec<i16> = Vec::new();
    while let Ok(Some(pck)) = reader.read_dec_packet_itl() {
        samples.extend(pck);
    }
    Some((rate, channels, samples))
}

/// Decodes whole Ogg/Vorbis streams through the outside decoder and
/// repacks the samples as the pipeline's canonical audio bytes.
pub struct VorbisDecoder {
    pub format: OggFormat,
}

impl VorbisDecoder {
    pub fn new(format: OggFormat) -> (r: VorbisDecoder)
        ensures
            r.format == format,
    {
        VorbisDecoder { format }
    }

    /// Reads the stream headers to learn the rate and channel count.
    pub fn from_ogg_data(data: &Vec<u8>) -> (r: IoResult<VorbisDecoder>)
        ensures
            r matches Ok(d) ==> vorbis_decoded(data@) matches Some((rate, ch, _s))
                && d.format.sample_rate == rate && d.format.channels == ch
                && d.format.bitstream_serial == 0,
            r is Err <==> vorbis_decoded(data@) is None,
    {
        match vorbis_decode_all(data) {
            Some((rate, channels, _samples)) => Ok(
                VorbisDecoder {
                    format: OggFormat { sample_rate: rate, channels, bitstream_serial: 0 },
                },
            ),
            None => Err(IoError::invalid_data("not a Vorbis stream")),
        }
    }

    pub fn sample_rate(&self) -> (r: u32)
        ensures
            r == self.format.sample_rate,
    {
        self.format.sample_rate
    }

    pub fn channels(&self) -> (r: u8)
        ensures
            r == self.format.channels,
    {
        self.format.channels
    }
}

impl Decoder for VorbisDecoder {
    /// Decodes the packet's bytes as a whole stream. A frame comes out
    /// exactly when the outside decoder yields samples; its bytes are those
    /// samples re-laid little-endian, under the announced rate and count.
    #[verifier::loop_isolation(false)]
    fn decode(&mut self, packet: Packet) -> (r: IoResult<Option<Frame>>)
        ensures
            *final(self) == *old(self),
            r matches Ok(f) ==> match f {
                None => vorbis_decoded(packet.data@) is None || (vorbis_decoded(packet.data@)
                    matches Some((rate, ch, s)) && s.len() == 0),
                Some(frame) => vorbis_decoded(packet.data@) matches Some((rate, ch, s)) && {
                    &&& frame.is_audio()
                    &&& frame.spec_audio().sample_rate == rate
                    &&& frame.spec_audio().channels == ch
                    &&& (s.len() <= usize::MAX / 2 ==> frame.spec_audio().data@.len() == 2
                        * s.len() && forall|i: int|
                        0 <= i < s.len() ==> crate::codecs::sample_at(
                            frame.spec_audio().data@,
                            i,
                        ) == s[i])
                    &&& frame.pts == packet.pts && frame.timebase == packet.timebase
                        && frame.stream_index == packet.stream_index
                },
            },
    {
        let decoded = match vorbis_decode_all(&packet.data) {
            Some(d) => d,
            None => {
                return Ok(None);
            },
        };
        let (rate, channels, samples) = decoded;
        let ns = samples.len();
        if ns == 0 {
            return Ok(None);
        }
        if ns > usize::MAX / 2 {
            let audio = FrameAudio::new(Vec::new(), rate, channels);
            let frame = Frame::new_audio(audio, packet.timebase, packet.stream_index).with_pts(
                packet.pts,
            );
            return Ok(Some(frame));
        }
        let mut output: Vec<u8> = vec![0u8; 2 * ns];
        let mut i: usize = 0;
        while i < ns
            invariant
                ns == samples@.len(),
                ns <= usize::MAX / 2,
                output@.len() == 2 * ns,
                i <= ns,
                forall|j: int| #![trigger output@[2 * j]]
                    0 <= j < i ==> seq![output@[2 * j], output@[2 * j + 1]]
                        == crate::io::endian::le16_signed_bytes(samples@[j]),
            decreases ns - i,
        {
            set_sample(&mut output, i, samples[i]);
            i = i + 1;
        }
        proof {
            assert forall|j: int| 0 <= j < ns implies crate::codecs::sample_at(output@, j)
                == samples@[j] by {
                assert(seq![output@[2 * j], output@[2 * j + 1]]
                    == crate::io::endian::le16_signed_bytes(samples@[j]));
                crate::io::endian::lemma_le16_signed_roundtrip(samples@[j]);
            }
        }
        let nb = if channels == 0 {
            0
        } else {
            ns / channels as usize
        };
        let audio = FrameAudio::new(output, rate, channels).with_nb_samples(nb);
        let frame = Frame::new_audio(audio, packet.timebase, packet.stream_index).with_pts(
            packet.pts,
        );
        Ok(Some(frame))
    }

    fn flush(&mut self) -> (r: IoResult<Option<Frame>>)
        ensures
            *final(self) == *old(self),
            r matches Ok(f) && f is None,
    {
        Ok(None)
    }
}

} // verus!
