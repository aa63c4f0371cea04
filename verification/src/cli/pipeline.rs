use vstd::prelude::*;

use crate::codecs::pcm::{PcmDecoder, PcmEncoder};
use crate::codecs::rawvideo::{RawVideoDecoder, RawVideoEncoder};
use crate::container::flac::read::FlacReader;
use crate::container::flac::write::FlacWriter;
use crate::container::flac::FlacFormat;
use crate::container::mp3::read::Mp3Reader;
use crate::container::mp3::write::Mp3Writer;
use crate::container::wav::read::WavReader;
use crate::container::wav::write::WavWriter;
use crate::container::wav::{wav_file_bytes, wav_parse, WavFormat};
use crate::container::y4m::read::Y4mReader;
use crate::container::y4m::write::Y4mWriter;
use crate::io::cursor::Cursor;
use crate::io::reader::MediaRead;
use crate::io::writer::MediaWrite;
use crate::io::error::{IoError, IoErrorKind, IoResult};
use crate::model::time::Timebase;
use crate::model::traits::{Decoder, Demuxer, Encoder, Muxer};
use crate::transform::{ChannelLayout, ChannelMixer, Gain, Normalize, Resample, TransformChain, TransformKind};

verus! {

/// The container family a path's extension names.
#[derive(Debug, Clone, Copy, PartialEq, Eq, Structural)]
pub enum MediaType {
    Wav,
    Y4m,
    Flac,
    Mp3,
    Ogg,
    Avi,
    Mp4,
    Unknown,
}

/// A byte of ASCII folded to lower case.
pub open spec fn lower_byte(b: u8) -> u8 {
    if 0x41 <= b <= 0x5A {
        (b + 0x20) as u8
    } else {
        b
    }
}

fn lower_byte_exec(b: u8) -> (r: u8)
    ensures
        r == lower_byte(b),
{
    if 0x41 <= b && b <= 0x5A {
        b + 0x20
    } else {
        b
    }
}

/// The bytes after the last dot, folded to lower case.
#[verifier::loop_isolation(false)]
fn extension_of(path: &str) -> (r: Vec<u8>) {
    let bytes = path.as_bytes();
    let n = bytes.len();
    let mut dot: usize = n;
    let mut i: usize = 0;
    while i < n
        invariant
            n == bytes@.len(),
            dot <= n,
        decreases n - i,
    {
        if *vstd::slice::slice_index_get(bytes, i) == 0x2E {
            dot = i;
        }
        i = i + 1;
    }
    let mut out: Vec<u8> = Vec::new();
    if dot >= n {
        return out;
    }
    let mut j: usize = dot + 1;
    while j < n
        invariant
            n == bytes@.len(),
            j >= 1,
        decreases n - j,
    {
        out.push(lower_byte_exec(*vstd::slice::slice_index_get(bytes, j)));
        j = j + 1;
    }
    out
}

fn ext_is(ext: &Vec<u8>, pat: &Vec<u8>) -> (r: bool)
    ensures
        r == (ext@ == pat@),
{
    let n = ext.len();
    if n != pat.len() {
        proof {
            assert(ext@ != pat@);
        }
        return false;
    }
    let mut i: usize = 0;
    while i < n
        invariant
            i <= n,
            n == ext@.len() && n == pat@.len(),
            forall|j: int| 0 <= j < i ==> ext@[j] == pat@[j],
        decreases n - i,
    {
        if ext[i] != pat[i] {
            return false;
        }
        i = i + 1;
    }
    proof {
        assert(ext@ =~= pat@);
    }
    true
}

impl MediaType {
    /// The family named by the path's extension, compared without case.
    pub fn from_extension(path: &str) -> (r: MediaType) {
        let ext = extension_of(path);
        let wav: Vec<u8> = vec![0x77, 0x61, 0x76];
        let y4m: Vec<u8> = vec![0x79, 0x34, 0x6d];
        let flac: Vec<u8> = vec![0x66, 0x6c, 0x61, 0x63];
        let mp3: Vec<u8> = vec![0x6d, 0x70, 0x33];
        let ogg: Vec<u8> = vec![0x6f, 0x67, 0x67];
        let oga: Vec<u8> = vec![0x6f, 0x67, 0x61];
        let avi: Vec<u8> = vec![0x61, 0x76, 0x69];
        let mp4: Vec<u8> = vec![0x6d, 0x70, 0x34];
        let m4a: Vec<u8> = vec![0x6d, 0x34, 0x61];
        let m4v: Vec<u8> = vec![0x6d, 0x34, 0x76];
        if ext_is(&ext, &wav) {
            MediaType::Wav
        } else if ext_is(&ext, &y4m) {
            MediaType::Y4m
        } else if ext_is(&ext, &flac) {
            MediaType::Flac
        } else if ext_is(&ext, &mp3) {
            MediaType::Mp3
        } else if ext_is(&ext, &ogg) || ext_is(&ext, &oga) {
            MediaType::Ogg
        } else if ext_is(&ext, &avi) {
            MediaType::Avi
        } else if ext_is(&ext, &mp4) || ext_is(&ext, &m4a) || ext_is(&ext, &m4v) {
            MediaType::Mp4
        } else {
            MediaType::Unknown
        }
    }

    pub fn is_audio(&self) -> (r: bool)
        ensures
            r == (*self is Wav || *self is Flac || *self is Mp3 || *self is Ogg),
    {
        match self {
            MediaType::Wav | MediaType::Flac | MediaType::Mp3 | MediaType::Ogg => true,
            _ => false,
        }
    }

    pub fn is_video(&self) -> (r: bool)
        ensures
            r == (*self is Y4m || *self is Avi || *self is Mp4),
    {
        match self {
            MediaType::Y4m | MediaType::Avi | MediaType::Mp4 => true,
            _ => false,
        }
    }
}

/// An input naming more than one file: a glob pattern.
pub fn is_batch_pattern(input: &str) -> (r: bool) {
    let bytes = input.as_bytes();
    let n = bytes.len();
    let mut i: usize = 0;
    #[verifier::loop_isolation(false)]
    while i < n
        invariant
            n == bytes@.len(),
        decreases n - i,
    {
        if *vstd::slice::slice_index_get(bytes, i) == 0x2A {
            return true;
        }
        i = i + 1;
    }
    false
}

/// One transform specification parsed: `name` or `name=args` with decimal
/// arguments; a decimal with a fractional part becomes an exact rational.
#[verifier::loop_isolation(false)]
pub fn parse_transform(spec: &str) -> (r: IoResult<TransformKind>) {
    let bytes: Vec<u8> = vstd::slice::slice_to_vec(spec.as_bytes());
    let n = bytes.len();
    let mut eq: usize = n;
    let mut i: usize = 0;
    while i < n
        invariant
            n == bytes@.len(),
            eq <= n,
        decreases n - i,
    {
        if bytes[i] == 0x3D && eq == n {
            eq = i;
        }
        i = i + 1;
    }
    let name: Vec<u8> = vstd::slice::slice_to_vec(
        vstd::slice::slice_subrange(bytes.as_slice(), 0, eq),
    );
    let arg: Vec<u8> = if eq < n {
        vstd::slice::slice_to_vec(vstd::slice::slice_subrange(bytes.as_slice(), eq + 1, n))
    } else {
        Vec::new()
    };
    let gain_name: Vec<u8> = vec![0x67, 0x61, 0x69, 0x6e];
    let norm_name: Vec<u8> = vec![0x6e, 0x6f, 0x72, 0x6d, 0x61, 0x6c, 0x69, 0x7a, 0x65];
    let mix_name: Vec<u8> = vec![0x6d, 0x69, 0x78];
    let resample_name: Vec<u8> = vec![0x72, 0x65, 0x73, 0x61, 0x6d, 0x70, 0x6c, 0x65];
    let fadein_name: Vec<u8> = vec![0x66, 0x61, 0x64, 0x65, 0x69, 0x6e];
    let mono_arg: Vec<u8> = vec![0x6d, 0x6f, 0x6e, 0x6f];
    let stereo_arg: Vec<u8> = vec![0x73, 0x74, 0x65, 0x72, 0x65, 0x6f];
    if ext_is(&name, &gain_name) {
        match parse_decimal(&arg) {
            Some((num, den)) => {
                if num > 0x7FFF_FFFF {
                    return Err(IoError::invalid_data("gain factor too large"));
                }
                Ok(TransformKind::Gain(Gain::new(num as i32, den)))
            },
            None => Err(IoError::invalid_data("bad gain factor")),
        }
    } else if ext_is(&name, &norm_name) {
        if arg.len() == 0 {
            Ok(TransformKind::Normalize(Normalize::default_peak()))
        } else {
            match parse_decimal(&arg) {
                Some((num, den)) => Ok(TransformKind::Normalize(Normalize::new(num, den))),
                None => Err(IoError::invalid_data("bad peak value")),
            }
        }
    } else if ext_is(&name, &mix_name) {
        if ext_is(&arg, &mono_arg) {
            Ok(TransformKind::Mixer(ChannelMixer::new(ChannelLayout::Mono)))
        } else if ext_is(&arg, &stereo_arg) {
            Ok(TransformKind::Mixer(ChannelMixer::new(ChannelLayout::Stereo)))
        } else {
            Err(IoError::invalid_data("unknown channel layout"))
        }
    } else if ext_is(&name, &resample_name) {
        match parse_decimal(&arg) {
            Some((num, den)) => {
                if den != 1 || num == 0 {
                    return Err(IoError::invalid_data("bad target rate"));
                }
                Ok(TransformKind::Resample(Resample::new(num)))
            },
            None => Err(IoError::invalid_data("bad target rate")),
        }
    } else if ext_is(&name, &fadein_name) {
        match parse_decimal(&arg) {
            Some((num, den)) => {
                if den != 1 {
                    return Err(IoError::invalid_data("bad fade duration"));
                }
                Ok(TransformKind::FadeIn(crate::transform::FadeIn::new(num, 44100)))
            },
            None => Err(IoError::invalid_data("bad fade duration")),
        }
    } else {
        Err(IoError::invalid_data("unknown transform"))
    }
}

/// `digits` or `digits.digits` as an exact rational: the digits as the
/// numerator over a power of ten.
#[verifier::loop_isolation(false)]
fn parse_decimal(arg: &Vec<u8>) -> (r: Option<(u32, u32)>)
    ensures
        r matches Some((num, den)) ==> den >= 1,
{
    let n = arg.len();
    if n == 0 {
        return None;
    }
    let mut num: u64 = 0;
    let mut den: u64 = 1;
    let mut seen_dot = false;
    let mut any_digit = false;
    let mut i: usize = 0;
    while i < n
        invariant
            n == arg@.len(),
            1 <= den < 0x1_0000_0000,
            num < 0x1_0000_0000,
        decreases n - i,
    {
        let c = arg[i];
        if c == 0x2E {
            if seen_dot {
                return None;
            }
            seen_dot = true;
        } else if 0x30 <= c && c <= 0x39 {
            any_digit = true;
            if num > 0x0FFF_FFFF {
                return None;
            }
            num = num * 10 + (c - 0x30) as u64;
            if num > 0xFFFF_FFFF {
                return None;
            }
            if seen_dot {
                if den > 0x0FFF_FFFF {
                    return None;
                }
                den = den * 10;
                if den > 0xFFFF_FFFF {
                    return None;
                }
            }
        } else {
            return None;
        }
        i = i + 1;
    }
    if !any_digit {
        return None;
    }
    Some((num as u32, den as u32))
}

/// Drives one transcode: the containers and codecs are picked from the
/// input and output paths, and the packets stream through decode,
/// transforms, and encode one at a time.
pub struct Pipeline {
    pub input_path: String,
    pub output_path: Option<String>,
    pub show_mode: bool,
    pub transforms: Vec<String>,
}

/// A 16-bit PCM transcode from WAV to WAV with no transforms gives back
/// the payload byte for byte under a canonical header: the round trip is
/// exact in the payload region.
#[verifier::loop_isolation(false)]
pub fn run_wav_to_wav(input: &Vec<u8>, chain: &mut TransformChain) -> (r: IoResult<Vec<u8>>)
    ensures
        ({
            let parsed = wav_parse(input@);
            parsed is Some ==> {
                let (f, size, payload) = parsed->Some_0;
                (old(chain).transforms@.len() == 0 && size <= payload.len() && size + 36
                    <= u32::MAX && f.sample_rate * (2 * f.channels) <= u32::MAX) ==> (r matches Ok(
                    out,
                ) && out@ == wav_file_bytes(f, payload.take(size as int)))
            }
        }),
{
    let data = vstd::slice::slice_to_vec(input.as_slice());
    let cursor = Cursor::new(data);
    proof {
        assert(cursor.stream() =~= input@);
    }
    let mut reader = match WavReader::new(cursor) {
        Ok(r) => r,
        Err(e) => {
            return Err(e);
        },
    };
    let format = reader.format();
    let sink: Vec<u8> = Vec::new();
    proof {
        assert(sink@ =~= Seq::<u8>::empty());
    }
    let mut writer = match WavWriter::new(sink, format) {
        Ok(w) => w,
        Err(e) => {
            return Err(e);
        },
    };
    let mut decoder = PcmDecoder::new(format);
    let mut encoder = PcmEncoder::new(Timebase::new(1, format.sample_rate));
    let empty_chain = chain.is_empty();
    let ghost payload0 = reader.payload_left();
    proof {
        assert(writer.payload_view() + reader.payload_left() =~= payload0);
    }
    let mut done = false;
    while !done
        invariant
            reader.wf(),
            reader.format == format,
            decoder.format == format,
            empty_chain ==> chain.transforms@.len() == 0,
            writer.format == format,
            writer.wf(),
            empty_chain ==> writer.payload_view() + reader.payload_left() == payload0,
            done ==> reader.payload_left().len() == 0,
        decreases reader.reader.stream().len() + reader.data_remaining + (if done {
            0int
        } else {
            1int
        }),
    {
        let packet = match reader.read_packet() {
            Ok(Some(p)) => p,
            Ok(None) => {
                done = true;
                continue ;
            },
            Err(e) => {
                return Err(e);
            },
        };
        let frame = match decoder.decode(packet) {
            Ok(Some(f)) => f,
            Ok(None) => {
                continue ;
            },
            Err(e) => {
                return Err(e);
            },
        };
        let processed = if empty_chain {
            frame
        } else {
            match chain.apply(frame) {
                Ok(f) => f,
                Err(e) => {
                    return Err(e);
                },
            }
        };
        let out_packet = match encoder.encode(processed) {
            Ok(Some(p)) => p,
            Ok(None) => {
                continue ;
            },
            Err(e) => {
                return Err(e);
            },
        };
        match writer.write_packet(out_packet) {
            Ok(()) => (),
            Err(e) => {
                return Err(e);
            },
        }
        proof {
            if empty_chain {
                assert(writer.payload_view() + reader.payload_left() =~= payload0);
            }
        }
    }
    proof {
        if empty_chain {
            assert(writer.payload_view() =~= payload0);
        }
        let parsed = wav_parse(input@);
        if parsed is Some {
            let (f, size, payload) = parsed->Some_0;
            if size <= payload.len() && old(chain).transforms@.len() == 0 {
                assert(payload0 =~= payload.take(size as int));
            }
        }
    }
    let ghost pre_payload = writer.payload_view();
    let ghost pre_format = writer.format;
    match writer.finalize() {
        Ok(()) => (),
        Err(e) => {
            return Err(e);
        },
    }
    let out = writer.writer;
    proof {
        let parsed = wav_parse(input@);
        if parsed is Some {
            let (f, size, payload) = parsed->Some_0;
            if size <= payload.len() && size + 36 <= u32::MAX && f.sample_rate * (2 * f.channels)
                <= u32::MAX && old(chain).transforms@.len() == 0 {
                assert(empty_chain);
                assert(pre_format == f);
                assert(pre_payload =~= payload0);
                assert(payload0 =~= payload.take(size as int));
                assert(pre_payload.len() + 36 <= u32::MAX);
                assert(out@ == wav_file_bytes(pre_format, pre_payload));
                assert(out@ =~= wav_file_bytes(f, payload.take(size as int)));
            }
        }
    }
    Ok(out)
}

/// A Y4M transcode through the raw-video codec: header mirrored, every
/// frame re-emitted. The output opens with exactly the header parameters
/// the input declared.
#[verifier::loop_isolation(false)]
pub fn run_y4m_transcode(input: &Vec<u8>) -> (r: IoResult<Vec<u8>>)
    ensures
        r matches Ok(out) ==> ({
            let parsed = crate::container::y4m::y4m_parse(input@);
            &&& parsed is Some
            &&& ({
                let raw = parsed->Some_0.0;
                out@.len() >= raw.len() + 10 && out@.subrange(0, raw.len() as int + 10)
                    == crate::container::y4m::y4m_magic() + raw + seq![0x0au8]
            })
        }),
{
    let cursor = Cursor::new(vstd::slice::slice_to_vec(input.as_slice()));
    proof {
        assert(cursor.stream() =~= input@);
    }
    let mut reader = match Y4mReader::new(cursor) {
        Ok(r) => r,
        Err(e) => {
            return Err(e);
        },
    };
    let format = reader.format();
    let sink: Vec<u8> = Vec::new();
    proof {
        assert(sink@ =~= Seq::<u8>::empty());
    }
    let mut writer = match Y4mWriter::new(sink, reader.format()) {
        Ok(w) => w,
        Err(e) => {
            return Err(e);
        },
    };
    let ghost hdr = crate::container::y4m::y4m_header_bytes(format);
    proof {
        assert(writer.writer.sink() =~= hdr);
        assert(writer.writer.sink().take(hdr.len() as int) =~= hdr);
    }
    let timebase = Timebase::new(format.framerate_den, format.framerate_num);
    let mut decoder = RawVideoDecoder::new(format);
    let mut encoder = RawVideoEncoder::new(timebase);
    loop
        invariant
            reader.wf(),
            writer.writer.appending(),
            writer.writer.sink().len() >= hdr.len(),
            writer.writer.sink().take(hdr.len() as int) == hdr,
            hdr == crate::container::y4m::y4m_header_bytes(format),
        decreases reader.reader.stream().len(),
    {
        let ghost pre = reader.reader.stream().len();
        let packet = match reader.read_packet() {
            Ok(Some(p)) => p,
            Ok(None) => {
                break ;
            },
            Err(e) => {
                return Err(e);
            },
        };
        let frame = match decoder.decode(packet) {
            Ok(Some(f)) => f,
            Ok(None) => {
                continue ;
            },
            Err(e) => {
                return Err(e);
            },
        };
        let out_packet = match encoder.encode(frame) {
            Ok(Some(p)) => p,
            Ok(None) => {
                continue ;
            },
            Err(e) => {
                return Err(e);
            },
        };
        match writer.write_packet(out_packet) {
            Ok(()) => (),
            Err(e) => {
                return Err(e);
            },
        }
        proof {
            assert(writer.writer.sink().take(hdr.len() as int) =~= hdr);
            assert(reader.reader.stream().len() < pre);
        }
    }
    match writer.finalize() {
        Ok(()) => (),
        Err(e) => {
            return Err(e);
        },
    }
    let out = writer.writer;
    proof {
        assert(out@.subrange(0, hdr.len() as int) =~= hdr);
    }
    Ok(out)
}

/// A pass-through copy between two containers that share frame bytes.
#[verifier::loop_isolation(false)]
fn copy_packets<D: Demuxer, M: Muxer>(reader: &mut D, writer: &mut M, fuel: usize) -> (r: IoResult<
    (),
>) {
    let mut left = fuel;
    while left > 0
        decreases left,
    {
        let packet = match reader.read_packet() {
            Ok(Some(p)) => p,
            Ok(None) => {
                return writer.finalize();
            },
            Err(e) => {
                return Err(e);
            },
        };
        match writer.write_packet(packet) {
            Ok(()) => (),
            Err(e) => {
                return Err(e);
            },
        }
        left = left - 1;
    }
    writer.finalize()
}

impl Pipeline {
    pub fn new(
        input_path: String,
        output_path: Option<String>,
        show_mode: bool,
        transforms: Vec<String>,
    ) -> (r: Pipeline)
        ensures
            r.input_path@ == input_path@,
            r.show_mode == show_mode,
            r.transforms == transforms,
    {
        Pipeline { input_path, output_path, show_mode, transforms }
    }

    /// Transcodes the given file bytes from the input format to the output
    /// format named by the paths, streaming packet by packet, and hands
    /// back the output file bytes. Unsupported conversions are
    /// `InvalidData`.
    #[verifier::loop_isolation(false)]
    pub fn run(&self, input: &Vec<u8>) -> (r: IoResult<Vec<u8>>) {
        let input_type = MediaType::from_extension(self.input_path.as_str());
        let output_type = match &self.output_path {
            Some(p) => MediaType::from_extension(p.as_str()),
            None => input_type,
        };
        let mut chain = TransformChain::new();
        let mut i: usize = 0;
        let nt = self.transforms.len();
        while i < nt
            invariant
                nt == self.transforms@.len(),
            decreases nt - i,
        {
            let t = match parse_transform(self.transforms[i].as_str()) {
                Ok(t) => t,
                Err(e) => {
                    return Err(e);
                },
            };
            chain.add(t);
            i = i + 1;
        }
        match (input_type, output_type) {
            (MediaType::Wav, MediaType::Wav) => run_wav_to_wav(input, &mut chain),
            (MediaType::Y4m, MediaType::Y4m) => run_y4m_transcode(input),
            (MediaType::Wav, MediaType::Flac) => {
                let cursor = Cursor::new(vstd::slice::slice_to_vec(input.as_slice()));
                let mut reader = match WavReader::new(cursor) {
                    Ok(r) => r,
                    Err(e) => {
                        return Err(e);
                    },
                };
                let wf = reader.format();
                let mut ff = FlacFormat::default();
                ff.sample_rate = wf.sample_rate;
                ff.channels = wf.channels;
                ff.bits_per_sample = if wf.bit_depth > 32 {
                    32
                } else if wf.bit_depth == 0 {
                    16
                } else {
                    wf.bit_depth as u8
                };
                let sink: Vec<u8> = Vec::new();
                let mut writer = match FlacWriter::new(sink, ff) {
                    Ok(w) => w,
                    Err(e) => {
                        return Err(e);
                    },
                };
                let fuel = input.len();
                match copy_packets(&mut reader, &mut writer, fuel) {
                    Ok(()) => (),
                    Err(e) => {
                        return Err(e);
                    },
                }
                Ok(writer.writer)
            },
            (MediaType::Flac, MediaType::Wav) => {
                let cursor = Cursor::new(vstd::slice::slice_to_vec(input.as_slice()));
                let mut reader = match FlacReader::new(cursor) {
                    Ok(r) => r,
                    Err(e) => {
                        return Err(e);
                    },
                };
                let ff = reader.format();
                let wf = WavFormat {
                    channels: ff.channels,
                    sample_rate: ff.sample_rate,
                    bit_depth: ff.bits_per_sample as u16,
                };
                let sink: Vec<u8> = Vec::new();
                let mut writer = match WavWriter::new(sink, wf) {
                    Ok(w) => w,
                    Err(e) => {
                        return Err(e);
                    },
                };
                let fuel = input.len();
                match copy_packets(&mut reader, &mut writer, fuel) {
                    Ok(()) => (),
                    Err(e) => {
                        return Err(e);
                    },
                }
                Ok(writer.writer)
            },
            (MediaType::Flac, MediaType::Flac) => {
                let cursor = Cursor::new(vstd::slice::slice_to_vec(input.as_slice()));
                let mut reader = match FlacReader::new(cursor) {
                    Ok(r) => r,
                    Err(e) => {
                        return Err(e);
                    },
                };
                let ff = reader.format();
                let sink: Vec<u8> = Vec::new();
                let mut writer = match FlacWriter::new(sink, ff) {
                    Ok(w) => w,
                    Err(e) => {
                        return Err(e);
                    },
                };
                let fuel = input.len();
                match copy_packets(&mut reader, &mut writer, fuel) {
                    Ok(()) => (),
                    Err(e) => {
                        return Err(e);
                    },
                }
                Ok(writer.writer)
            },
            (MediaType::Mp3, MediaType::Mp3) => {
                let cursor = Cursor::new(vstd::slice::slice_to_vec(input.as_slice()));
                let mut reader = match Mp3Reader::new(cursor) {
                    Ok(r) => r,
                    Err(e) => {
                        return Err(e);
                    },
                };
                let sink: Vec<u8> = Vec::new();
                let mut writer = match Mp3Writer::new(sink) {
                    Ok(w) => w,
                    Err(e) => {
                        return Err(e);
                    },
                };
                let fuel = input.len();
                match copy_packets(&mut reader, &mut writer, fuel) {
                    Ok(()) => (),
                    Err(e) => {
                        return Err(e);
                    },
                }
                Ok(writer.writer)
            },
            (MediaType::Mp3, MediaType::Wav) => {
                let cursor = Cursor::new(vstd::slice::slice_to_vec(input.as_slice()));
                let mut reader = match Mp3Reader::new(cursor) {
                    Ok(r) => r,
                    Err(e) => {
                        return Err(e);
                    },
                };
                let mf = reader.format();
                let wf = WavFormat {
                    channels: mf.channels,
                    sample_rate: mf.sample_rate,
                    bit_depth: 16,
                };
                let sink: Vec<u8> = Vec::new();
                let mut writer = match WavWriter::new(sink, wf) {
                    Ok(w) => w,
                    Err(e) => {
                        return Err(e);
                    },
                };
                let fuel = input.len();
                match copy_packets(&mut reader, &mut writer, fuel) {
                    Ok(()) => (),
                    Err(e) => {
                        return Err(e);
                    },
                }
                Ok(writer.writer)
            },
            _ => Err(IoError::with_message(IoErrorKind::InvalidData, "unsupported format conversion")),
        }
    }
}

/// Names a batch run: a glob pattern expanded outside the core, each match
/// driven through its own pipeline into the output directory.
pub struct BatchPipeline {
    pub input_pattern: String,
    pub output_dir: String,
    pub show_mode: bool,
    pub transforms: Vec<String>,
}

impl BatchPipeline {
    pub fn new(
        input_pattern: String,
        output_dir: String,
        show_mode: bool,
        transforms: Vec<String>,
    ) -> (r: BatchPipeline)
        ensures
            r.input_pattern@ == input_pattern@,
            r.output_dir@ == output_dir@,
            r.show_mode == show_mode,
    {
        BatchPipeline { input_pattern, output_dir, show_mode, transforms }
    }
}

} // verus!
