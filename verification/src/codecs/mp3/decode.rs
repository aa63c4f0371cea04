use vstd::prelude::*;

use crate::codecs::mp3::bits::BitReader;
use crate::codecs::mp3::header::{parse_header_spec, FrameHeader};
use crate::codecs::mp3::sideinfo::{
    gc_reserved,
    gc_total_bits,
    si_granule_channels,
    si_side_bits,
    SideInfo,
};
use crate::io::error::IoResult;
use crate::model::frame::{Frame, FrameAudio};
use crate::model::packet::Packet;
use crate::model::traits::Decoder;

verus! {

/// The side information parses from these bytes: its bits fit and no
/// granule-channel carries the reserved block type.
pub open spec fn side_info_ok(si: Seq<u8>, h: FrameHeader) -> bool {
    let is1 = h.version is Mpeg1;
    let mono = h.channels == 1;
    let gct = gc_total_bits(is1);
    let ngc = si_granule_channels(is1, mono);
    &&& si_side_bits(is1, mono) + ngc * gct <= 8 * si.len()
    &&& forall|k: int|
        0 <= k < ngc ==> !gc_reserved(si, si_side_bits(is1, mono) + #[trigger] (k * gct), is1)
}

/// The buffer opens with one complete frame: a parseable header, the whole
/// frame present, and parseable side information after the header (and the
/// CRC word when one is flagged).
pub open spec fn frame_complete_at(buf: Seq<u8>) -> bool {
    parse_header_spec(buf) matches Some(h) && {
        let fs = h.frame_size as int;
        let sis: int = if h.crc_protection {
            6
        } else {
            4
        };
        &&& fs > 0
        &&& fs <= buf.len()
        &&& sis <= fs
        &&& side_info_ok(buf.subrange(sis, fs), h)
    }
}

/// Accumulates packet bytes, consumes whole frames (header and side
/// information), and emits silent PCM for each consumed frame: frame
/// headers and side information are decoded, the spectral payload is not.
pub struct Mp3Decoder {
    pub sample_rate: u32,
    pub channels: u8,
    pub residual_data: Vec<u8>,
}

impl Mp3Decoder {
    pub fn new(sample_rate: u32, channels: u8) -> (r: Mp3Decoder)
        ensures
            r.sample_rate == sample_rate,
            r.channels == channels,
            r.residual_data@.len() == 0,
    {
        Mp3Decoder { sample_rate, channels, residual_data: Vec::new() }
    }

    /// Seeds the stream parameters from the first frame header; `None`
    /// when the bytes do not open with one.
    pub fn from_header(data: &[u8]) -> (r: Option<Mp3Decoder>)
        ensures
            r matches Some(d) ==> parse_header_spec(data@) matches Some(h) && d.sample_rate
                == h.sample_rate && d.channels == h.channels && d.residual_data@.len() == 0,
            r is None <==> parse_header_spec(data@) is None,
    {
        match FrameHeader::parse(data) {
            Some(header) => Some(Mp3Decoder::new(header.sample_rate, header.channels)),
            None => None,
        }
    }
}

impl Decoder for Mp3Decoder {
    /// Consumes every complete frame now buffered: the consumed prefix is
    /// removed, the unconsumed suffix is kept for the next call. When the
    /// buffered bytes open with a complete frame, a frame is owed; it is
    /// an audio frame of silence covering the consumed frames, stamped
    /// with the packet's position.
    #[verifier::loop_isolation(false)]
    #[verifier::rlimit(100)]
    fn decode(&mut self, packet: Packet) -> (r: IoResult<Option<Frame>>)
        ensures
            r matches Ok(f) && (f matches Some(frame) ==> {
                &&& frame.is_audio()
                &&& frame.spec_audio().wf()
                &&& frame.pts == packet.pts && frame.timebase == packet.timebase
                    && frame.stream_index == packet.stream_index
                &&& frame.spec_audio().channels == final(self).channels
                &&& frame.spec_audio().sample_rate == final(self).sample_rate
                &&& forall|i: int|
                    0 <= i < frame.spec_audio().data@.len() ==> frame.spec_audio().data@[i] == 0u8
            }),
            ({
                let buf = old(self).residual_data@ + packet.data@;
                &&& (packet.data@.len() == 0 ==> (r matches Ok(f) && f is None && *final(self)
                    == *old(self)))
                &&& (packet.data@.len() > 0 ==> final(self).residual_data@ == buf.skip(
                    buf.len() - final(self).residual_data@.len(),
                ))
                &&& (packet.data@.len() > 0 && buf.len() <= usize::MAX / 8 ==> ((r matches Ok(f)
                    && f is Some) <==> frame_complete_at(buf)))
                &&& (packet.data@.len() > 0 ==> ((r matches Ok(f) && f is None)
                    ==> final(self).residual_data@ == buf))
            }),
            final(self).sample_rate == old(self).sample_rate || packet.data@.len() > 0,
    {
        if packet.data.len() == 0 {
            return Ok(None);
        }
        let mut incoming = packet.data;
        self.residual_data.append(&mut incoming);
        let ghost buf = old(self).residual_data@ + packet.data@;
        proof {
            assert(self.residual_data@ =~= buf);
        }
        let mut total_samples: usize = 0;
        let mut offset: usize = 0;
        let mut done = false;
        let n = self.residual_data.len();
        while !done && n >= 4 && offset <= n - 4
            invariant
                n == self.residual_data@.len(),
                self.residual_data@ == buf,
                self.sample_rate == old(self).sample_rate || total_samples > 0,
                offset <= n,
                total_samples <= usize::MAX / 4,
                (total_samples > 0) == (offset > 0),
                total_samples > 0 ==> (self.channels == 1 || self.channels == 2),
                done ==> (n <= usize::MAX / 8 && frame_complete_at(buf) ==> offset > 0),
                offset > 0 && n <= usize::MAX / 8 ==> frame_complete_at(buf),
            decreases n - offset + (if done {
                0int
            } else {
                1int
            }),
        {
            let tail = vstd::slice::slice_subrange(self.residual_data.as_slice(), offset, n);
            proof {
                if offset == 0 {
                    assert(tail@ =~= buf);
                }
            }
            match FrameHeader::parse(tail) {
                None => {
                    done = true;
                },
                Some(header) => {
                    if header.frame_size == 0 || header.frame_size > n - offset {
                        done = true;
                    } else {
                        // the side information must parse for the frame to count
                        let si_start: usize = if header.crc_protection {
                            6
                        } else {
                            4
                        };
                        if si_start > header.frame_size {
                            done = true;
                        } else {
                            let frame_bytes = vstd::slice::slice_subrange(
                                self.residual_data.as_slice(),
                                offset,
                                offset + header.frame_size,
                            );
                            let si_bytes = vstd::slice::slice_subrange(
                                frame_bytes,
                                si_start,
                                header.frame_size,
                            );
                            proof {
                                if offset == 0 {
                                    assert(si_bytes@ =~= buf.subrange(
                                        si_start as int,
                                        header.frame_size as int,
                                    ));
                                }
                            }
                            let mut bit_reader = BitReader::new(si_bytes);
                            match SideInfo::parse(&mut bit_reader, &header) {
                                None => {
                                    done = true;
                                },
                                Some(_) => {
                                    proof {
                                        if offset == 0 && n <= usize::MAX / 8 {
                                            assert(side_info_ok(
                                                buf.subrange(
                                                    si_start as int,
                                                    header.frame_size as int,
                                                ),
                                                header,
                                            ));
                                            assert(frame_complete_at(buf));
                                        }
                                    }
                                    self.sample_rate = header.sample_rate;
                                    self.channels = header.channels;
                                    let spf = header.samples_per_frame();
                                    let add = match spf.checked_mul(header.channels as usize) {
                                        Some(v) => v,
                                        None => 0,
                                    };
                                    total_samples = match total_samples.checked_add(add) {
                                        Some(v) => {
                                            if v <= usize::MAX / 4 {
                                                v
                                            } else {
                                                total_samples
                                            }
                                        },
                                        None => total_samples,
                                    };
                                    offset = offset + header.frame_size;
                                },
                            }
                        }
                    }
                },
            }
        }
        if offset > 0 {
            let mut rest: Vec<u8> = Vec::new();
            let n2 = self.residual_data.len();
            let keep = vstd::slice::slice_subrange(self.residual_data.as_slice(), offset, n2);
            rest = vstd::slice::slice_to_vec(keep);
            self.residual_data = rest;
            proof {
                assert(self.residual_data@ =~= buf.skip(offset as int));
            }
        }
        if total_samples == 0 {
            proof {
                assert(self.residual_data@ =~= buf.skip(
                    buf.len() - self.residual_data@.len(),
                ));
            }
            return Ok(None);
        }
        proof {
            assert(self.residual_data@ =~= buf.skip(buf.len() - self.residual_data@.len()));
        }
        let ch: usize = if self.channels == 0 {
            1
        } else {
            self.channels as usize
        };
        if self.channels == 0 {
            self.channels = 1;
        }
        let nb = total_samples;
        let bytes = match nb.checked_mul(ch) {
            Some(v) => match v.checked_mul(2) {
                Some(b) => b,
                None => {
                    return Ok(None);
                },
            },
            None => {
                return Ok(None);
            },
        };
        let data: Vec<u8> = vec![0u8; bytes];
        let audio = FrameAudio::new(data, self.sample_rate, self.channels).with_nb_samples(nb);
        let frame = Frame::new_audio(audio, packet.timebase, packet.stream_index).with_pts(
            packet.pts,
        );
        Ok(Some(frame))
    }

    fn flush(&mut self) -> (r: IoResult<Option<Frame>>)
        ensures
            *final(self) == *old(self),
            r matches Ok(f) && f is None,
    {
        Ok(None)
    }
}

} // verus!
