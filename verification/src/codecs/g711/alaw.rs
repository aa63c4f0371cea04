use vstd::prelude::*;

use crate::codecs::g711::{alaw_decode, alaw_decode_spec, alaw_encode, alaw_encode_spec};
use crate::codecs::sample_at;
use crate::container::wav::WavFormat;
use crate::io::endian;
use crate::io::error::IoResult;
use crate::model::frame::{Frame, FrameAudio, FrameData};
use crate::model::packet::Packet;
use crate::model::time::Timebase;
use crate::model::traits::{Decoder, Encoder};
use crate::transform::set_sample;

verus! {

/// Stateless: one A-law byte per sample becomes one 16-bit sample.
pub struct AlawDecoder {
    pub format: WavFormat,
}

impl AlawDecoder {
    pub fn new(format: WavFormat) -> (r: AlawDecoder)
        ensures
            r.format == format,
    {
        AlawDecoder { format }
    }
}

impl Decoder for AlawDecoder {
    /// Each input byte maps through `alaw_decode_spec` to one sample of
    /// the output, in order.
    #[verifier::loop_isolation(false)]
    fn decode(&mut self, packet: Packet) -> (r: IoResult<Option<Frame>>)
        ensures
            *final(self) == *old(self),
            r matches Ok(f) && f matches Some(frame) && {
                &&& frame.is_audio()
                &&& frame.spec_audio().sample_rate == old(self).format.sample_rate
                &&& frame.spec_audio().channels == old(self).format.channels
                &&& frame.pts == packet.pts && frame.timebase == packet.timebase
                    && frame.stream_index == packet.stream_index
                &&& packet.data@.len() <= usize::MAX / 2 ==> frame.spec_audio().data@.len() == 2
                    * packet.data@.len() && forall|i: int|
                    0 <= i < packet.data@.len() ==> sample_at(frame.spec_audio().data@, i)
                        == alaw_decode_spec(packet.data@[i] as int)
            },
    {
        let n = packet.data.len();
        if n > usize::MAX / 2 {
            let output: Vec<u8> = Vec::new();
            let audio = FrameAudio::new(output, self.format.sample_rate, self.format.channels);
            let frame = Frame::new_audio(audio, packet.timebase, packet.stream_index).with_pts(
                packet.pts,
            );
            return Ok(Some(frame));
        }
        let mut output: Vec<u8> = vec![0u8; 2 * n];
        let mut i: usize = 0;
        while i < n
            invariant
                n == packet.data@.len(),
                output@.len() == 2 * n,
                i <= n,
                forall|j: int| #![trigger output@[2 * j]]
                    0 <= j < i ==> seq![output@[2 * j], output@[2 * j + 1]]
                        == endian::le16_signed_bytes(
                        alaw_decode_spec(packet.data@[j] as int) as i16,
                    ),
            decreases n - i,
        {
            let s = alaw_decode(packet.data[i]);
            set_sample(&mut output, i, s);
            i = i + 1;
        }
        proof {
            assert forall|j: int| 0 <= j < n implies sample_at(output@, j) == alaw_decode_spec(
                packet.data@[j] as int,
            ) by {
                assert(seq![output@[2 * j], output@[2 * j + 1]] == endian::le16_signed_bytes(
                    alaw_decode_spec(packet.data@[j] as int) as i16,
                ));
                endian::lemma_le16_signed_roundtrip(
                    alaw_decode_spec(packet.data@[j] as int) as i16,
                );
            }
        }
        let nb = if self.format.channels == 0 {
            0
        } else {
            n / self.format.channels as usize
        };
        let audio = FrameAudio::new(
            output,
            self.format.sample_rate,
            self.format.channels,
        ).with_nb_samples(nb);
        let frame = Frame::new_audio(audio, packet.timebase, packet.stream_index).with_pts(
            packet.pts,
        );
        Ok(Some(frame))
    }

    fn flush(&mut self) -> (r: IoResult<Option<Frame>>)
        ensures
            *final(self) == *old(self),
            r matches Ok(f) && f is None,
    {
        Ok(None)
    }
}

/// Stateless: one 16-bit sample becomes one A-law byte.
pub struct AlawEncoder {
    pub timebase: Timebase,
}

impl AlawEncoder {
    pub fn new(timebase: Timebase, _channels: u8) -> (r: AlawEncoder)
        ensures
            r.timebase == timebase,
    {
        AlawEncoder { timebase }
    }
}

impl Encoder for AlawEncoder {
    /// Each sample of the frame maps through `alaw_encode_spec` to one
    /// output byte, in order; a trailing odd byte is dropped.
    #[verifier::loop_isolation(false)]
    fn encode(&mut self, frame: Frame) -> (r: IoResult<Option<Packet>>)
        ensures
            *final(self) == *old(self),
            r matches Ok(p) && p matches Some(pkt) && match frame.data {
                FrameData::Audio(a) => {
                    &&& pkt.data@.len() == a.data@.len() as int / 2
                    &&& forall|i: int|
                        0 <= i < pkt.data@.len() ==> pkt.data@[i] == alaw_encode_spec(
                            sample_at(a.data@, i),
                        )
                    &&& pkt.pts == frame.pts && pkt.timebase == old(self).timebase
                        && pkt.stream_index == frame.stream_index
                },
                FrameData::Video(v) => pkt.data@.len() == v.data@.len() as int / 2,
            },
    {
        let data = match &frame.data {
            FrameData::Audio(a) => &a.data,
            FrameData::Video(v) => &v.data,
        };
        let samples = data.len() / 2;
        let mut output: Vec<u8> = Vec::new();
        let mut i: usize = 0;
        while i < samples
            invariant
                samples == data@.len() as int / 2,
                output@.len() == i,
                i <= samples,
                forall|j: int|
                    0 <= j < i ==> output@[j] == alaw_encode_spec(sample_at(data@, j)),
            decreases samples - i,
        {
            let s = crate::transform::get_sample(data, i);
            output.push(alaw_encode(s));
            i = i + 1;
        }
        let packet = Packet::new(output, frame.stream_index, self.timebase).with_pts(frame.pts);
        Ok(Some(packet))
    }

    fn flush(&mut self) -> (r: IoResult<Option<Packet>>)
        ensures
            *final(self) == *old(self),
            r matches Ok(p) && p is None,
    {
        Ok(None)
    }
}

} // verus!
