use vstd::prelude::*;

use crate::codecs::flac::{crc16, crc8, utf8_frame_number, FlacStreamInfo};
use crate::io::error::IoResult;
use crate::model::frame::{Frame, FrameData};
use crate::model::packet::Packet;
use crate::model::time::Timebase;
use crate::model::traits::Encoder;
use crate::transform::get_sample;

verus! {

/// Emits one frame per input frame: a fixed-blocksize frame header with
/// the running frame number, then one verbatim subframe per channel, then
/// the frame check. No prediction is attempted.
pub struct FlacEncoder {
    pub stream_info: FlacStreamInfo,
    pub timebase: Timebase,
    pub frame_count: u64,
}

impl FlacEncoder {
    pub fn new(sample_rate: u32, channels: u8, bits_per_sample: u8, block_size: u16) -> (r:
        FlacEncoder)
        ensures
            r.stream_info.sample_rate == sample_rate,
            r.stream_info.channels == channels,
            r.stream_info.bits_per_sample == bits_per_sample,
            r.stream_info.min_block_size == block_size,
            r.stream_info.max_block_size == block_size,
            r.frame_count == 0,
            r.timebase == (Timebase { num: 1, den: sample_rate }),
    {
        let stream_info = FlacStreamInfo {
            min_block_size: block_size,
            max_block_size: block_size,
            min_frame_size: 0,
            max_frame_size: 0,
            sample_rate,
            channels,
            bits_per_sample,
            total_samples: 0,
        };
        FlacEncoder { stream_info, timebase: Timebase::new(1, sample_rate), frame_count: 0 }
    }

    pub fn from_stream_info(stream_info: FlacStreamInfo) -> (r: FlacEncoder)
        ensures
            r.stream_info == stream_info,
            r.frame_count == 0,
            r.timebase == (Timebase { num: 1, den: stream_info.sample_rate }),
    {
        FlacEncoder {
            stream_info,
            timebase: Timebase::new(1, stream_info.sample_rate),
            frame_count: 0,
        }
    }
}

impl Encoder for FlacEncoder {
    /// A frame with at least one whole 16-bit sample per channel becomes
    /// one packet carrying the frame's presentation timestamp; shorter
    /// frames wait for more input. The frame counter advances with every
    /// packet produced.
    #[verifier::loop_isolation(false)]
    #[verifier::rlimit(100)]
    fn encode(&mut self, frame: Frame) -> (r: IoResult<Option<Packet>>)
        ensures
            final(self).stream_info == old(self).stream_info,
            final(self).timebase == old(self).timebase,
            r matches Ok(p) && (p matches Some(pkt) ==> {
                &&& pkt.pts == frame.pts && pkt.timebase == old(self).timebase
                    && pkt.stream_index == frame.stream_index
                &&& pkt.data@.len() > 0
                &&& old(self).frame_count < u64::MAX ==> final(self).frame_count == old(self).frame_count + 1
            }),
            r matches Ok(p) && (p is None ==> *final(self) == *old(self)),
            r matches Ok(p) && ({
                let dlen = (if frame.is_audio() {
                    frame.spec_audio().data@.len() as int
                } else {
                    frame.spec_video().data@.len() as int
                });
                let chs: int = if old(self).stream_info.channels == 0 {
                    1
                } else {
                    old(self).stream_info.channels as int
                };
                let bs0 = (dlen / 2) / chs;
                let bs = if bs0 > 65536 {
                    65536int
                } else {
                    bs0
                };
                &&& (p is Some <==> bs0 >= 1)
                &&& (p matches Some(pkt) ==> pkt.data@[0] == 0xFFu8 && pkt.data@[1] == 0xF8u8 && 10
                    + chs * (1 + 2 * bs) <= pkt.data@.len() <= 16 + chs * (1 + 2 * bs))
            }),
    {
        let data = match &frame.data {
            FrameData::Audio(a) => &a.data,
            FrameData::Video(v) => &v.data,
        };
        let channels: usize = if self.stream_info.channels == 0 {
            1
        } else {
            self.stream_info.channels as usize
        };
        let ch8: u8 = if self.stream_info.channels == 0 {
            1
        } else if self.stream_info.channels > 8 {
            8
        } else {
            self.stream_info.channels
        };
        let total_samples = data.len() / 2;
        let block_size = total_samples / channels;
        if block_size == 0 {
            return Ok(None);
        }
        let bs_capped: usize = if block_size > 65536 {
            65536
        } else {
            block_size
        };
        let mut header: Vec<u8> = Vec::new();
        header.push(0xFF);
        header.push(0xF8);
        // blocksize coded at the header's end, sample rate from STREAMINFO
        header.push(0x70);
        // independent channels, sixteen-bit samples
        header.push((ch8 - 1) * 16 + 0x08);
        let mut num = utf8_frame_number(self.frame_count);
        header.append(&mut num);
        let bs_field: u16 = (bs_capped - 1) as u16;
        let (hi, lo) = crate::io::endian::u16_to_be(bs_field);
        header.push(hi);
        header.push(lo);
        let c8 = crc8(header.as_slice());
        header.push(c8);
        let ghost num_len = header@.len() - 7;
        let mut out = header;
        // one verbatim subframe per channel, samples big-endian
        let mut ch: usize = 0;
        while ch < channels
            invariant
                channels >= 1,
                bs_capped >= 1,
                bs_capped <= 65536,
                total_samples == data@.len() as int / 2,
                bs_capped <= total_samples / channels || bs_capped == 65536,
                ch <= channels,
                1 <= num_len <= 7,
                out@.len() == 7 + num_len + ch * (1 + 2 * bs_capped),
                out@[0] == 0xFFu8 && out@[1] == 0xF8u8,
            decreases channels - ch,
        {
            out.push(0x02);
            let mut i: usize = 0;
            while i < bs_capped
                invariant
                    channels >= 1,
                    bs_capped <= 65536,
                    total_samples == data@.len() as int / 2,
                    i <= bs_capped,
                    out@.len() == 7 + num_len + ch * (1 + 2 * bs_capped) + 1 + 2 * i,
                    out@[0] == 0xFFu8 && out@[1] == 0xF8u8,
                decreases bs_capped - i,
            {
                let k: Option<usize> = match i.checked_mul(channels) {
                    Some(b) => b.checked_add(ch),
                    None => None,
                };
                let s: i16 = match k {
                    Some(x) => {
                        if x < data.len() / 2 {
                            get_sample(data, x)
                        } else {
                            0
                        }
                    },
                    None => 0,
                };
                let u: u16 = if s < 0 {
                    (s as i32 + 65536) as u16
                } else {
                    s as u16
                };
                let (b0, b1) = crate::io::endian::u16_to_be(u);
                out.push(b0);
                out.push(b1);
                i = i + 1;
            }
            ch = ch + 1;
            proof {
                assert(ch * (1 + 2 * bs_capped) == (ch - 1) * (1 + 2 * bs_capped) + (1 + 2
                    * bs_capped)) by (nonlinear_arith);
            }
        }
        let c16 = crc16(out.as_slice());
        let (c_hi, c_lo) = crate::io::endian::u16_to_be(c16);
        out.push(c_hi);
        out.push(c_lo);
        self.frame_count = match self.frame_count.checked_add(1) {
            Some(v) => v,
            None => u64::MAX,
        };
        proof {
            assert(channels as int * (1 + 2 * bs_capped as int) == channels * (1 + 2 * bs_capped));
        }
        let packet = Packet::new(out, frame.stream_index, self.timebase).with_pts(frame.pts);
        Ok(Some(packet))
    }

    fn flush(&mut self) -> (r: IoResult<Option<Packet>>)
        ensures
            *final(self) == *old(self),
            r matches Ok(p) && p is None,
    {
        Ok(None)
    }
}

} // verus!
