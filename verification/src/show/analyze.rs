use vstd::prelude::*;

use crate::codecs::pcm::PcmDecoder;
use crate::codecs::rawvideo::RawVideoDecoder;
use crate::container::flac::read::FlacReader;
use crate::container::wav::read::WavReader;
use crate::container::y4m::read::Y4mReader;
use crate::io::cursor::Cursor;
use crate::io::endian;
use crate::io::error::{IoError, IoResult};
use crate::io::reader::MediaRead;
use crate::model::traits::{Decoder, Demuxer};
use crate::show::{FrameInfo, MediaInfo, ShowOptions, StreamInfo};

verus! {

/// The duration in milliseconds of a byte count at a byte rate, saturating
/// at the largest representable value; a zero rate reports zero.
fn duration_ms_of(data_bytes: u64, bytes_per_second: u64) -> (r: u64)
    ensures
        bytes_per_second == 0 ==> r == 0,
        bytes_per_second > 0 ==> r as int == (if data_bytes as int * 1000 / bytes_per_second as int
            > u64::MAX {
            u64::MAX as int
        } else {
            data_bytes as int * 1000 / bytes_per_second as int
        }),
{
    if bytes_per_second == 0 {
        return 0;
    }
    let ms: u128 = data_bytes as u128 * 1000 / bytes_per_second as u128;
    if ms > u64::MAX as u128 {
        u64::MAX
    } else {
        ms as u64
    }
}

/// Opens the bytes as WAV and reports the format and the first packets:
/// exactly the streams the parser accepts are inspected, one audio stream
/// with the `fmt ` chunk's fields and the duration the data size implies.
#[verifier::loop_isolation(false)]
pub fn analyze_wav(data: &Vec<u8>, opts: &ShowOptions) -> (r: IoResult<MediaInfo>)
    ensures
        r is Ok <==> crate::container::wav::wav_parse(data@) is Some,
        r matches Ok(mi) ==> ({
            let (f, size, payload) = crate::container::wav::wav_parse(data@)->Some_0;
            let bps = f.sample_rate as int * (2 * f.channels as int);
            &&& mi.size == data@.len()
            &&& mi.streams@.len() == 1
            &&& mi.streams@[0] == (StreamInfo::Audio {
                index: 0,
                sample_rate: f.sample_rate,
                channels: f.channels,
                bit_depth: f.bit_depth,
            })
            &&& (bps == 0 ==> mi.duration_ms == 0)
            &&& (bps > 0 ==> mi.duration_ms as int == (if size * 1000 / bps > u64::MAX {
                u64::MAX as int
            } else {
                size * 1000 / bps
            }))
        }),
{
    let cursor = Cursor::new(vstd::slice::slice_to_vec(data.as_slice()));
    proof {
        assert(cursor.stream() =~= data@);
    }
    let mut reader = match WavReader::new(cursor) {
        Ok(r) => r,
        Err(e) => {
            return Err(e);
        },
    };
    let format = reader.format();
    let mut streams: Vec<StreamInfo> = Vec::new();
    streams.push(
        StreamInfo::Audio {
            index: 0,
            sample_rate: format.sample_rate,
            channels: format.channels,
            bit_depth: format.bit_depth,
        },
    );
    proof {
        vstd::arithmetic::mul::lemma_mul_upper_bound(
            format.sample_rate as int,
            0x1_0000_0000,
            2 * format.channels as int,
            512,
        );
        vstd::arithmetic::mul::lemma_mul_nonnegative(
            format.sample_rate as int,
            2 * format.channels as int,
        );
    }
    let bps128: u128 = format.sample_rate as u128 * (2 * format.channels as u128);
    let bps: u64 = bps128 as u64;
    let duration_ms = duration_ms_of(reader.data_remaining, bps);
    let mut decoder = PcmDecoder::new(format);
    let mut frames: Vec<FrameInfo> = Vec::new();
    let limit = opts.frame_limit;
    let mut idx: u64 = 0;
    let mut done = false;
    while !done && frames.len() < limit
        invariant
            reader.wf(),
        decreases reader.reader.stream().len() + reader.data_remaining + (if done {
            0int
        } else {
            1int
        }),
    {
        let packet = match reader.read_packet() {
            Ok(Some(p)) => p,
            Ok(None) => {
                done = true;
                continue ;
            },
            Err(e) => {
                return Err(e);
            },
        };
        let size = packet.data.len();
        let pts = packet.pts;
        match decoder.decode(packet) {
            Ok(_) => (),
            Err(e) => {
                return Err(e);
            },
        }
        frames.push(FrameInfo { index: idx, pts, keyframe: true, size });
        idx = match idx.checked_add(1) {
            Some(v) => v,
            None => u64::MAX,
        };
    }
    Ok(MediaInfo { duration_ms, size: data.len() as u64, streams, frames })
}

/// Opens the bytes as Y4M and reports the geometry and the first frames:
/// one video stream with the header line's width, height and framerate.
#[verifier::loop_isolation(false)]
pub fn analyze_y4m(data: &Vec<u8>, opts: &ShowOptions) -> (r: IoResult<MediaInfo>)
    ensures
        r matches Ok(mi) ==> ({
            let raw = crate::container::y4m::y4m_parse(data@)->Some_0.0;
            let f = crate::container::y4m::apply_params(crate::container::y4m::base_fields(), raw);
            &&& crate::container::y4m::y4m_parse(data@) is Some
            &&& mi.size == data@.len()
            &&& mi.streams@.len() == 1
            &&& mi.streams@[0] == (StreamInfo::Video {
                index: 0,
                width: f.width,
                height: f.height,
                frame_rate_num: f.framerate_num,
                frame_rate_den: f.framerate_den,
            })
        }),
{
    let cursor = Cursor::new(vstd::slice::slice_to_vec(data.as_slice()));
    proof {
        assert(cursor.stream() =~= data@);
    }
    let mut reader = match Y4mReader::new(cursor) {
        Ok(r) => r,
        Err(e) => {
            return Err(e);
        },
    };
    let format = reader.format();
    let mut streams: Vec<StreamInfo> = Vec::new();
    streams.push(
        StreamInfo::Video {
            index: 0,
            width: format.width,
            height: format.height,
            frame_rate_num: format.framerate_num,
            frame_rate_den: format.framerate_den,
        },
    );
    let mut decoder = RawVideoDecoder::new(reader.format());
    let mut frames: Vec<FrameInfo> = Vec::new();
    let limit = opts.frame_limit;
    let mut idx: u64 = 0;
    let mut done = false;
    while !done && frames.len() < limit
        invariant
            reader.wf(),
        decreases reader.reader.stream().len() + (if done {
            0int
        } else {
            1int
        }),
    {
        let packet = match reader.read_packet() {
            Ok(Some(p)) => p,
            Ok(None) => {
                done = true;
                continue ;
            },
            Err(_) => {
                done = true;
                continue ;
            },
        };
        let size = packet.data.len();
        let pts = packet.pts;
        match decoder.decode(packet) {
            Ok(_) => (),
            Err(e) => {
                return Err(e);
            },
        }
        frames.push(FrameInfo { index: idx, pts, keyframe: true, size });
        idx = match idx.checked_add(1) {
            Some(v) => v,
            None => u64::MAX,
        };
    }
    // one frame per framerate tick
    let frame_count = idx;
    let duration_ms: u64 = if format.framerate_num == 0 {
        0
    } else {
        proof {
            vstd::arithmetic::mul::lemma_mul_upper_bound(
                frame_count as int * 1000,
                0x3E8_0000_0000_0000_0000,
                format.framerate_den as int,
                0x1_0000_0000,
            );
            vstd::arithmetic::mul::lemma_mul_nonnegative(
                frame_count as int * 1000,
                format.framerate_den as int,
            );
        }
        let ms: u128 = frame_count as u128 * 1000 * format.framerate_den as u128
            / format.framerate_num as u128;
        if ms > u64::MAX as u128 {
            u64::MAX
        } else {
            ms as u64
        }
    };
    Ok(MediaInfo { duration_ms, size: data.len() as u64, streams, frames })
}

/// Opens the bytes as FLAC and reports what STREAMINFO announces: one
/// audio stream, and the duration that the total sample count at the
/// announced rate implies.
pub fn analyze_flac(data: &Vec<u8>, _opts: &ShowOptions) -> (r: IoResult<MediaInfo>)
    ensures
        r matches Ok(mi) ==> ({
            &&& mi.size == data@.len()
            &&& mi.streams@.len() == 1
            &&& mi.streams@[0] is Audio
            &&& (mi.streams@[0] matches StreamInfo::Audio { sample_rate, channels, bit_depth, .. }
                ==> 1 <= channels <= 8 && 1 <= bit_depth <= 32 && (sample_rate == 0
                ==> mi.duration_ms == 0))
        }),
{
    let cursor = Cursor::new(vstd::slice::slice_to_vec(data.as_slice()));
    proof {
        assert(cursor.stream() =~= data@);
    }
    let reader = match FlacReader::new(cursor) {
        Ok(r) => r,
        Err(e) => {
            return Err(e);
        },
    };
    let format = reader.format();
    let mut streams: Vec<StreamInfo> = Vec::new();
    streams.push(
        StreamInfo::Audio {
            index: 0,
            sample_rate: format.sample_rate,
            channels: format.channels,
            bit_depth: format.bits_per_sample as u16,
        },
    );
    let duration_ms: u64 = if format.sample_rate == 0 {
        0
    } else if format.total_samples > u64::MAX / 1000 {
        u64::MAX
    } else {
        format.total_samples * 1000 / format.sample_rate as u64
    };
    Ok(
        MediaInfo {
            duration_ms,
            size: data.len() as u64,
            streams,
            frames: Vec::new(),
        },
    )
}

/// The twelve-byte `RIFF....AVI ` opening.
pub open spec fn is_riff_avi(b: Seq<u8>) -> bool {
    &&& b.len() >= 12
    &&& b[0] == 0x52u8 && b[1] == 0x49u8 && b[2] == 0x46u8 && b[3] == 0x46u8
    &&& b[8] == 0x41u8 && b[9] == 0x56u8 && b[10] == 0x49u8 && b[11] == 0x20u8
}

/// Walks the RIFF lists of an AVI: the main header for the geometry and
/// timing, and one stream entry per `strh` chunk found. Exactly the inputs
/// without the `RIFF....AVI ` opening are rejected.
#[verifier::loop_isolation(false)]
pub fn analyze_avi(data: &Vec<u8>, _opts: &ShowOptions) -> (r: IoResult<MediaInfo>)
    ensures
        r is Ok <==> is_riff_avi(data@),
        r matches Err(e) ==> e.spec_kind() == crate::io::error::IoErrorKind::InvalidData,
        r matches Ok(mi) ==> mi.size == data@.len() && mi.frames@.len() == 0,
{
    let n = data.len();
    if n < 12 {
        return Err(IoError::invalid_data("not an AVI file"));
    }
    if !(data[0] == 0x52 && data[1] == 0x49 && data[2] == 0x46 && data[3] == 0x46 && data[8]
        == 0x41 && data[9] == 0x56 && data[10] == 0x49 && data[11] == 0x20) {
        return Err(IoError::invalid_data("not an AVI file"));
    }
    let mut streams: Vec<StreamInfo> = Vec::new();
    let mut duration_ms: u64 = 0;
    let mut width: u32 = 0;
    let mut height: u32 = 0;
    let mut sindex: usize = 0;
    // a flat scan over the chunk ids; list nesting only moves the walk
    // four bytes further in
    let mut pos: usize = 12;
    while pos < n
        invariant
            n == data@.len(),
            pos >= 12,
        decreases n - pos,
    {
        if n - pos < 8 {
            break ;
        }
        let id0 = data[pos];
        let id1 = data[pos + 1];
        let id2 = data[pos + 2];
        let id3 = data[pos + 3];
        let size = endian::u32_from_le(data[pos + 4], data[pos + 5], data[pos + 6], data[pos + 7]);
        if id0 == 0x4C && id1 == 0x49 && id2 == 0x53 && id3 == 0x54 {
            // a list: step inside, past its four-byte kind
            if n - pos < 12 {
                break ;
            }
            pos = pos + 12;
            continue ;
        }
        let body_start = pos + 8;
        if id0 == 0x61 && id1 == 0x76 && id2 == 0x69 && id3 == 0x68 {
            // the main header: microseconds per frame, total frames,
            // width, height
            if size >= 40 && n - body_start >= 40 {
                let uspf = endian::u32_from_le(
                    data[body_start],
                    data[body_start + 1],
                    data[body_start + 2],
                    data[body_start + 3],
                );
                let total_frames = endian::u32_from_le(
                    data[body_start + 16],
                    data[body_start + 17],
                    data[body_start + 18],
                    data[body_start + 19],
                );
                width = endian::u32_from_le(
                    data[body_start + 32],
                    data[body_start + 33],
                    data[body_start + 34],
                    data[body_start + 35],
                );
                height = endian::u32_from_le(
                    data[body_start + 36],
                    data[body_start + 37],
                    data[body_start + 38],
                    data[body_start + 39],
                );
                proof {
                    vstd::arithmetic::mul::lemma_mul_upper_bound(
                        total_frames as int,
                        0x1_0000_0000,
                        uspf as int,
                        0x1_0000_0000,
                    );
                    vstd::arithmetic::mul::lemma_mul_nonnegative(
                        total_frames as int,
                        uspf as int,
                    );
                }
                let us128: u128 = total_frames as u128 * uspf as u128 / 1000;
                duration_ms = if us128 > u64::MAX as u128 {
                    u64::MAX
                } else {
                    us128 as u64
                };
            }
        } else if id0 == 0x73 && id1 == 0x74 && id2 == 0x72 && id3 == 0x68 {
            // one stream header: its kind fourcc opens the chunk
            if size >= 4 && n - body_start >= 4 {
                let k0 = data[body_start];
                if k0 == 0x76 {
                    // vids
                    streams.push(
                        StreamInfo::Video {
                            index: sindex,
                            width,
                            height,
                            frame_rate_num: 0,
                            frame_rate_den: 1,
                        },
                    );
                } else {
                    streams.push(
                        StreamInfo::Audio {
                            index: sindex,
                            sample_rate: 0,
                            channels: 0,
                            bit_depth: 0,
                        },
                    );
                }
                sindex = match sindex.checked_add(1) {
                    Some(v) => v,
                    None => sindex,
                };
            }
        }
        // chunks are word aligned
        let advance: u64 = 8 + size as u64 + (size % 2) as u64;
        if advance > (n - pos) as u64 {
            break ;
        }
        pos = pos + advance as usize;
    }
    Ok(MediaInfo { duration_ms, size: n as u64, streams, frames: Vec::new() })
}

/// Walks the top-level boxes of an ISO media file: the brand, the movie
/// header's timescale and duration, and one entry per track. An input too
/// short for a box, or one whose walk meets no `ftyp` box, is rejected.
#[verifier::loop_isolation(false)]
pub fn analyze_mp4(data: &Vec<u8>, _opts: &ShowOptions) -> (r: IoResult<MediaInfo>)
    ensures
        data@.len() < 8 ==> r is Err,
        r matches Err(e) ==> e.spec_kind() == crate::io::error::IoErrorKind::InvalidData,
        r matches Ok(mi) ==> mi.size == data@.len() && mi.frames@.len() == 0,
{
    let n = data.len();
    if n < 8 {
        return Err(IoError::invalid_data("not an ISO media file"));
    }
    let mut streams: Vec<StreamInfo> = Vec::new();
    let mut duration_ms: u64 = 0;
    let mut saw_ftyp = false;
    let mut sindex: usize = 0;
    let mut pos: usize = 0;
    while pos < n
        invariant
            n == data@.len(),
        decreases n - pos,
    {
        if n - pos < 8 {
            break ;
        }
        let size = endian::u32_from_be(data[pos], data[pos + 1], data[pos + 2], data[pos + 3]);
        let t0 = data[pos + 4];
        let t1 = data[pos + 5];
        let t2 = data[pos + 6];
        let t3 = data[pos + 7];
        if t0 == 0x66 && t1 == 0x74 && t2 == 0x79 && t3 == 0x70 {
            saw_ftyp = true;
        } else if t0 == 0x6D && t1 == 0x6F && t2 == 0x6F && t3 == 0x76 {
            // the movie box: scan inside it for mvhd and trak headers
            let body_end: usize = if size >= 8 && pos as u128 + size as u128 <= n as u128 {
                pos + size as usize
            } else {
                n
            };
            let mut q: usize = pos + 8;
            while q < body_end
                invariant
                    body_end <= n,
                    n == data@.len(),
                decreases body_end - q,
            {
                if body_end - q < 8 {
                    break ;
                }
                let bsize = endian::u32_from_be(data[q], data[q + 1], data[q + 2], data[q + 3]);
                let b0 = data[q + 4];
                let b1 = data[q + 5];
                let b2 = data[q + 6];
                let b3 = data[q + 7];
                if b0 == 0x6D && b1 == 0x76 && b2 == 0x68 && b3 == 0x64 {
                    // the movie header: version 0 has 32-bit timescale and
                    // duration at fixed offsets
                    if body_end - q >= 24 {
                        let timescale = endian::u32_from_be(
                            data[q + 20],
                            data[q + 21],
                            data[q + 22],
                            data[q + 23],
                        );
                        let dur = if body_end - q >= 28 {
                            endian::u32_from_be(
                                data[q + 24],
                                data[q + 25],
                                data[q + 26],
                                data[q + 27],
                            )
                        } else {
                            0
                        };
                        if timescale > 0 {
                            duration_ms = dur as u64 * 1000 / timescale as u64;
                        }
                    }
                } else if b0 == 0x74 && b1 == 0x72 && b2 == 0x61 && b3 == 0x6B {
                    streams.push(
                        StreamInfo::Video {
                            index: sindex,
                            width: 0,
                            height: 0,
                            frame_rate_num: 0,
                            frame_rate_den: 1,
                        },
                    );
                    sindex = match sindex.checked_add(1) {
                        Some(v) => v,
                        None => sindex,
                    };
                }
                if bsize < 8 {
                    break ;
                }
                if bsize as u64 > (body_end - q) as u64 {
                    break ;
                }
                q = q + bsize as usize;
            }
        }
        if size < 8 {
            break ;
        }
        if size as u64 > (n - pos) as u64 {
            break ;
        }
        pos = pos + size as usize;
    }
    if !saw_ftyp {
        return Err(IoError::invalid_data("not an ISO media file"));
    }
    Ok(MediaInfo { duration_ms, size: n as u64, streams, frames: Vec::new() })
}

} // verus!
