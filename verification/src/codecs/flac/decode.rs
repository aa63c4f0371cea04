use vstd::prelude::*;

use crate::codecs::flac::FlacStreamInfo;
use crate::container::flac::FlacFormat;
use crate::io::error::{IoError, IoResult};
use crate::model::frame::{Frame, FrameAudio};
use crate::model::packet::Packet;
use crate::model::traits::Decoder;
use crate::transform::set_sample;

verus! {

/// How many continuation bytes the frame number's leading byte announces.
pub open spec fn utf8_extra(lead: u8) -> int {
    if lead < 0x80 {
        0
    } else if lead < 0xE0 {
        1
    } else if lead < 0xF0 {
        2
    } else if lead < 0xF8 {
        3
    } else if lead < 0xFC {
        4
    } else if lead < 0xFE {
        5
    } else {
        6
    }
}

/// A whole frame of verbatim subframes: the sync pattern, a complete
/// header, a block size within range, and one verbatim subframe per
/// channel with all its samples present. On such a frame decoding is owed.
pub open spec fn flac_verbatim_frame_ok(d: Seq<u8>, chs: int) -> bool {
    &&& d.len() >= 10
    &&& d[0] == 0xFFu8
    &&& d[1] / 8 == 0x1Fu8
    &&& ({
        let ext = utf8_extra(d[4]);
        let sf = 8 + ext;
        let bs = crate::io::endian::be16(d[5 + ext], d[6 + ext]) + 1;
        &&& 5 + ext + 3 <= d.len()
        &&& bs <= 65536
        &&& bs * chs * 2 <= usize::MAX
        &&& d.len() >= sf + chs * (1 + 2 * bs)
        &&& forall|c: int| 0 <= c < chs ==> (d[sf + #[trigger] (c * (1 + 2 * bs))] / 2) % 64 == 2
    })
}

/// Rebuilds 16-bit PCM from whole frames of verbatim or constant
/// subframes, driven by the stream parameters.
pub struct FlacDecoder {
    pub stream_info: FlacStreamInfo,
}

impl FlacDecoder {
    pub fn new(format: &FlacFormat) -> (r: FlacDecoder)
        ensures
            r.stream_info.sample_rate == format.sample_rate,
            r.stream_info.channels == format.channels,
            r.stream_info.bits_per_sample == format.bits_per_sample,
    {
        FlacDecoder {
            stream_info: FlacStreamInfo {
                min_block_size: format.min_block_size,
                max_block_size: format.max_block_size,
                min_frame_size: format.min_frame_size,
                max_frame_size: format.max_frame_size,
                sample_rate: format.sample_rate,
                channels: format.channels,
                bits_per_sample: format.bits_per_sample,
                total_samples: format.total_samples,
            },
        }
    }

    pub fn from_stream_info(stream_info: FlacStreamInfo) -> (r: FlacDecoder)
        ensures
            r.stream_info == stream_info,
    {
        FlacDecoder { stream_info }
    }
}

impl Decoder for FlacDecoder {
    /// Parses one whole frame: the header (whose blocksize field sets the
    /// sample count), then one subframe per channel, verbatim or constant.
    /// The rebuilt samples come out interleaved; a malformed frame is
    /// `InvalidData`.
    #[verifier::loop_isolation(false)]
    #[verifier::rlimit(100)]
    fn decode(&mut self, packet: Packet) -> (r: IoResult<Option<Frame>>)
        ensures
            *final(self) == *old(self),
            r matches Ok(f) ==> (f matches Some(frame) ==> {
                &&& frame.is_audio()
                &&& frame.spec_audio().sample_rate == old(self).stream_info.sample_rate
                &&& frame.spec_audio().channels == old(self).stream_info.channels
                &&& frame.pts == packet.pts && frame.timebase == packet.timebase
                    && frame.stream_index == packet.stream_index
                &&& packet.data@.len() >= 10 ==> frame.spec_audio().nb_samples
                    == crate::io::endian::be16(
                    packet.data@[5 + utf8_extra(packet.data@[4])],
                    packet.data@[6 + utf8_extra(packet.data@[4])],
                ) + 1
            }),
            ({
                let chs: int = if old(self).stream_info.channels == 0 {
                    1
                } else {
                    old(self).stream_info.channels as int
                };
                flac_verbatim_frame_ok(packet.data@, chs) ==> (r matches Ok(f) && f is Some)
            }),
    {
        let d = &packet.data;
        if d.len() < 10 {
            return Err(IoError::invalid_data("frame too short"));
        }
        if !(d[0] == 0xFF && d[1] / 8 == 0x1F) {
            return Err(IoError::invalid_data("missing frame sync"));
        }
        let channels: usize = if self.stream_info.channels == 0 {
            1
        } else {
            self.stream_info.channels as usize
        };
        // skip the variable-length frame number
        let mut pos: usize = 4;
        let lead = d[pos];
        let extra: usize = if lead < 0x80 {
            0
        } else if lead < 0xE0 {
            1
        } else if lead < 0xF0 {
            2
        } else if lead < 0xF8 {
            3
        } else if lead < 0xFC {
            4
        } else if lead < 0xFE {
            5
        } else {
            6
        };
        pos = pos + 1 + extra;
        if pos + 3 > d.len() {
            return Err(IoError::invalid_data("frame header truncated"));
        }
        let block_size: usize = crate::io::endian::u16_from_be(d[pos], d[pos + 1]) as usize + 1;
        pos = pos + 2;
        // the header check byte
        pos = pos + 1;
        if block_size > 65536 {
            return Err(IoError::invalid_data("block too large"));
        }
        let total: usize = match block_size.checked_mul(channels) {
            Some(v) => v,
            None => {
                return Err(IoError::invalid_data("block too large"));
            },
        };
        let bytes: usize = match total.checked_mul(2) {
            Some(v) => v,
            None => {
                return Err(IoError::invalid_data("block too large"));
            },
        };
        let mut output: Vec<u8> = vec![0u8; bytes];
        let ghost chs_g: int = channels as int;
        let ghost hyp = flac_verbatim_frame_ok(packet.data@, chs_g);
        let ghost ext_g = utf8_extra(packet.data@[4]);
        let ghost sfg = 8 + ext_g;
        let ghost bsg = crate::io::endian::be16(
            packet.data@[5 + ext_g],
            packet.data@[6 + ext_g],
        ) + 1;
        proof {
            assert(extra == ext_g);
            assert(block_size == bsg);
            assert(pos == sfg);
        }
        let mut ch: usize = 0;
        while ch < channels
            invariant
                output@.len() == bytes,
                bytes == total * 2,
                total == block_size * channels,
                channels >= 1,
                block_size >= 1,
                ch <= channels,
                pos <= packet.data@.len() + 3,
                d == &packet.data,
                hyp == flac_verbatim_frame_ok(packet.data@, chs_g),
                chs_g == channels as int,
                hyp ==> block_size == bsg && pos == sfg + ch * (1 + 2 * bsg),
            decreases channels - ch,
        {
            proof {
                if hyp {
                    assert((ch + 1) * (1 + 2 * bsg) <= chs_g * (1 + 2 * bsg)) by (nonlinear_arith)
                        requires
                            ch + 1 <= chs_g && bsg >= 0,
                    ;
                    assert((ch + 1) * (1 + 2 * bsg) == ch * (1 + 2 * bsg) + (1 + 2 * bsg))
                        by (nonlinear_arith);
                    assert(ch * (1 + 2 * bsg) >= 0) by (nonlinear_arith)
                        requires
                            ch >= 0 && bsg >= 0,
                    ;
                }
            }
            if pos >= d.len() {
                return Err(IoError::invalid_data("subframe truncated"));
            }
            let sub_header = d[pos];
            pos = pos + 1;
            let sub_type = (sub_header / 2) % 64;
            if sub_type == 1 {
                // constant: one sample value fills the block
                if pos >= d.len() || pos == d.len() - 1 {
                    return Err(IoError::invalid_data("subframe truncated"));
                }
                let u = crate::io::endian::u16_from_be(d[pos], d[pos + 1]);
                pos = pos + 2;
                let s: i16 = if u >= 32768 {
                    (u as i32 - 65536) as i16
                } else {
                    u as i16
                };
                let mut i: usize = 0;
                while i < block_size
                    invariant
                        output@.len() == bytes,
                        bytes == total * 2,
                        total == block_size * channels,
                        channels >= 1,
                        ch < channels,
                    decreases block_size - i,
                {
                    proof {
                        assert(i * channels + ch < block_size * channels) by (nonlinear_arith)
                            requires
                                i < block_size && ch < channels && channels >= 1 && i >= 0 && ch
                                    >= 0 && block_size >= 0,
                        ;
                    }
                    let k = i * channels + ch;
                    set_sample(&mut output, k, s);
                    i = i + 1;
                }
            } else if sub_type == 2 {
                // verbatim: the samples follow big-endian
                let mut i: usize = 0;
                while i < block_size
                    invariant
                        output@.len() == bytes,
                        bytes == total * 2,
                        total == block_size * channels,
                        channels >= 1,
                        ch < channels,
                        i <= block_size,
                        pos <= packet.data@.len() + 3,
                        d == &packet.data,
                        hyp == flac_verbatim_frame_ok(packet.data@, chs_g),
                        chs_g == channels as int,
                        hyp ==> block_size == bsg && pos == sfg + ch * (1 + 2 * bsg) + 1 + 2 * i,
                    decreases block_size - i,
                {
                    proof {
                        if hyp {
                            assert((ch + 1) * (1 + 2 * bsg) <= chs_g * (1 + 2 * bsg))
                                by (nonlinear_arith)
                                requires
                                    ch + 1 <= chs_g && bsg >= 0,
                            ;
                            assert((ch + 1) * (1 + 2 * bsg) == ch * (1 + 2 * bsg) + (1 + 2 * bsg))
                                by (nonlinear_arith);
                        }
                    }
                    if pos >= d.len() || pos == d.len() - 1 {
                        return Err(IoError::invalid_data("subframe truncated"));
                    }
                    let u = crate::io::endian::u16_from_be(d[pos], d[pos + 1]);
                    pos = pos + 2;
                    let s: i16 = if u >= 32768 {
                        (u as i32 - 65536) as i16
                    } else {
                        u as i16
                    };
                    proof {
                        assert(i * channels + ch < block_size * channels) by (nonlinear_arith)
                            requires
                                i < block_size && ch < channels && channels >= 1 && i >= 0 && ch
                                    >= 0 && block_size >= 0,
                        ;
                    }
                    let k = i * channels + ch;
                    set_sample(&mut output, k, s);
                    i = i + 1;
                }
            } else {
                return Err(IoError::invalid_data("unsupported subframe type"));
            }
            ch = ch + 1;
        }
        let audio = FrameAudio::new(
            output,
            self.stream_info.sample_rate,
            self.stream_info.channels,
        ).with_nb_samples(block_size);
        let frame = Frame::new_audio(audio, packet.timebase, packet.stream_index).with_pts(
            packet.pts,
        );
        Ok(Some(frame))
    }

    fn flush(&mut self) -> (r: IoResult<Option<Frame>>)
        ensures
            *final(self) == *old(self),
            r matches Ok(f) && f is None,
    {
        Ok(None)
    }
}

} // verus!
