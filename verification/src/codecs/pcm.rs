pub mod decode;
pub mod encode;

pub use decode::PcmDecoder;
pub use encode::PcmEncoder;

use vstd::prelude::*;

use crate::container::wav::WavFormat;
use crate::model::frame::{Frame, FrameAudio, FrameData};
use crate::model::packet::Packet;
use crate::model::time::Timebase;

verus! {

/// The frame a PCM decode of `packet` produces: the packet's bytes
/// reinterpreted as interleaved 16-bit samples, with position carried over
/// unchanged.
pub open spec fn pcm_decode_frame(format: WavFormat, packet: Packet) -> Frame {
    let bpf = (format.bit_depth / 8) * format.channels;
    Frame {
        data: FrameData::Audio(
            FrameAudio {
                data: packet.data,
                sample_rate: format.sample_rate,
                channels: format.channels,
                nb_samples: if bpf == 0 {
                    0
                } else {
                    (packet.data@.len() as int / bpf as int) as usize
                },
            },
        ),
        pts: packet.pts,
        timebase: packet.timebase,
        stream_index: packet.stream_index,
    }
}

/// The raw bytes of a frame, whichever media kind it holds.
pub open spec fn frame_bytes(frame: Frame) -> Seq<u8> {
    match frame.data {
        FrameData::Audio(a) => a.data@,
        FrameData::Video(v) => v.data@,
    }
}

/// The packet a PCM encode of `frame` produces: the frame's bytes verbatim,
/// with the frame's presentation timestamp.
pub open spec fn pcm_encode_packet(timebase: Timebase, frame: Frame) -> Packet {
    Packet {
        data: match frame.data {
            FrameData::Audio(a) => a.data,
            FrameData::Video(v) => v.data,
        },
        pts: frame.pts,
        dts: 0,
        timebase,
        stream_index: frame.stream_index,
        keyframe: false,
        discard: false,
    }
}

/// Both PCM codecs copy bytes verbatim, so an encode followed by a decode
/// gives back the audio byte content, the sample count, and the
/// presentation timestamp of the frame that went in.
pub proof fn lemma_pcm_roundtrip(format: WavFormat, timebase: Timebase, frame: Frame)
    requires
        frame.is_audio(),
        frame.spec_audio().channels == format.channels,
        format.wf(),
        frame.spec_audio().wf(),
    ensures
        pcm_decode_frame(format, pcm_encode_packet(timebase, frame)).spec_audio().data
            == frame.spec_audio().data,
        pcm_decode_frame(format, pcm_encode_packet(timebase, frame)).spec_audio().nb_samples
            == frame.spec_audio().nb_samples,
        pcm_decode_frame(format, pcm_encode_packet(timebase, frame)).pts == frame.pts,
{
    let a = frame.spec_audio();
    let n = a.nb_samples as int;
    let c = a.channels as int;
    let bpf = 2 * c;
    assert(a.data@.len() == n * c * 2);
    assert(n * c * 2 == bpf * n) by (nonlinear_arith)
        requires
            bpf == 2 * c,
    ;
    vstd::arithmetic::div_mod::lemma_div_multiples_vanish(n, bpf);
}

/// The PCM decoder accounts for every payload byte: when the packet holds
/// whole sample frames, the sample count times the frame size gives the
/// byte count back.
pub proof fn lemma_pcm_sample_count(format: WavFormat, packet: Packet)
    requires
        format.wf(),
        packet.data@.len() as int % (2 * format.channels as int) == 0,
    ensures
        pcm_decode_frame(format, packet).spec_audio().nb_samples * format.channels * 2
            == packet.data@.len(),
{
    broadcast use vstd::std_specs::vec::axiom_spec_len;

    let n = packet.data@.len() as int;
    let bpf = 2 * format.channels as int;
    vstd::arithmetic::div_mod::lemma_fundamental_div_mod(n, bpf);
    let q = n / bpf;
    vstd::arithmetic::div_mod::lemma_div_is_ordered_by_denominator(n, 1, bpf);
    vstd::arithmetic::div_mod::lemma_div_pos_is_pos(n, bpf);
    assert(vstd::std_specs::vec::spec_vec_len(&packet.data) == packet.data@.len());
    assert(pcm_decode_frame(format, packet).spec_audio().nb_samples == q);
    assert(q * format.channels as int * 2 == bpf * q) by (nonlinear_arith)
        requires
            bpf == 2 * format.channels as int && q == n / bpf,
    ;
}

/// Decoding a packet and encoding the result leaves both the payload bytes
/// and the presentation timestamp untouched, whatever the packet held.
pub proof fn lemma_pcm_pts_preserved(format: WavFormat, timebase: Timebase, packet: Packet)
    ensures
        pcm_encode_packet(timebase, pcm_decode_frame(format, packet)).pts == packet.pts,
        pcm_encode_packet(timebase, pcm_decode_frame(format, packet)).data == packet.data,
        timebase == packet.timebase ==> pcm_encode_packet(
            timebase,
            pcm_decode_frame(format, packet),
        ).timebase == packet.timebase,
{
}

} // verus!
