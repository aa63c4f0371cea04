use ffmpreg::cli::pipeline::{run_wav_to_wav, MediaType, Pipeline};
use ffmpreg::codecs::mp3::header::{find_sync, FrameHeader};
use ffmpreg::codecs::{AlawDecoder, AlawEncoder, PcmDecoder, PcmEncoder, UlawDecoder, UlawEncoder};
use ffmpreg::container::{WavFormat, WavReader, Y4mReader, Y4mWriter};
use ffmpreg::io::{Cursor, IoErrorKind, ReadPrimitives};
use ffmpreg::model::{Decoder, Demuxer, Encoder, Frame, FrameData, Muxer, Timebase, Transform};
use ffmpreg::transform::video::{Crop, Flip, Rotate, Scale, ScaleMode};
use ffmpreg::transform::{ChannelMixer, Gain, Normalize, TransformChain};

fn generate_sine_wave(samples: usize, frequency: f32, sample_rate: u32) -> Vec<i16> {
    let mut data = Vec::with_capacity(samples);
    for i in 0..samples {
        let t = i as f32 / sample_rate as f32;
        let sample = (2.0 * std::f32::consts::PI * frequency * t).sin() * 16000.0;
        data.push(sample as i16);
    }
    data
}

fn build_wav(channels: u16, sample_rate: u32, samples: &[i16]) -> Vec<u8> {
    let bits_per_sample: u16 = 16;
    let data_size = samples.len() * 2;
    let file_size = 36 + data_size;
    let mut wav = Vec::new();
    wav.extend_from_slice(b"RIFF");
    wav.extend_from_slice(&(file_size as u32).to_le_bytes());
    wav.extend_from_slice(b"WAVE");
    wav.extend_from_slice(b"fmt ");
    wav.extend_from_slice(&16u32.to_le_bytes());
    wav.extend_from_slice(&1u16.to_le_bytes());
    wav.extend_from_slice(&channels.to_le_bytes());
    wav.extend_from_slice(&sample_rate.to_le_bytes());
    let byte_rate = sample_rate * channels as u32 * bits_per_sample as u32 / 8;
    wav.extend_from_slice(&byte_rate.to_le_bytes());
    let block_align = channels * bits_per_sample / 8;
    wav.extend_from_slice(&block_align.to_le_bytes());
    wav.extend_from_slice(&bits_per_sample.to_le_bytes());
    wav.extend_from_slice(b"data");
    wav.extend_from_slice(&(data_size as u32).to_le_bytes());
    for sample in samples {
        wav.extend_from_slice(&sample.to_le_bytes());
    }
    wav
}

fn audio_frame(samples: &[i16], channels: u8, rate: u32) -> Frame {
    let mut data = Vec::new();
    for s in samples {
        data.extend_from_slice(&s.to_le_bytes());
    }
    let audio = ffmpreg::model::FrameAudio::new(data, rate, channels)
        .with_nb_samples(samples.len() / channels as usize);
    Frame::new_audio(audio, Timebase::new(1, rate), 0)
}

fn frame_samples(frame: &Frame) -> Vec<i16> {
    match &frame.data {
        FrameData::Audio(a) => a
            .data
            .chunks(2)
            .map(|c| i16::from_le_bytes([c[0], c[1]]))
            .collect(),
        FrameData::Video(_) => panic!("expected audio"),
    }
}

fn video_frame(w: u32, h: u32, bytes: &[u8]) -> Frame {
    let video = ffmpreg::model::FrameVideo::new(
        bytes.to_vec(),
        w,
        h,
        ffmpreg::model::VideoFormat::YUV420,
    );
    Frame::new_video(video, Timebase::new(1, 30), 0)
}

fn video_bytes(frame: &Frame) -> Vec<u8> {
    match &frame.data {
        FrameData::Video(v) => v.data.clone(),
        FrameData::Audio(_) => panic!("expected video"),
    }
}

// a mono 16-bit 44100 Hz source of 512 sine samples survives a demux,
// decode, encode, mux pass with its payload intact
#[test]
fn scenario_wav_roundtrip_payload_exact() {
    let samples = generate_sine_wave(512, 440.0, 44100);
    let input = build_wav(1, 44100, &samples);
    let mut chain = TransformChain::new();
    let output = run_wav_to_wav(&input, &mut chain).unwrap();
    assert_eq!(output.len(), input.len());
    assert_eq!(&output[44..], &input[44..], "payload region must round-trip exactly");
}

// gain=2 doubles every small sample and saturates the rest
#[test]
fn scenario_gain_doubles_and_saturates() {
    let mut samples = generate_sine_wave(256, 440.0, 44100);
    samples.push(20000);
    samples.push(-20000);
    let frame = audio_frame(&samples, 1, 44100);
    let mut gain = Gain::new(2, 1);
    let out = gain.apply(frame).unwrap();
    let result = frame_samples(&out);
    for (orig, new) in samples.iter().zip(result.iter()) {
        if (orig.abs() as i32) < 16384 {
            assert_eq!(*new as i32, *orig as i32 * 2);
        } else {
            let doubled = *orig as i32 * 2;
            if doubled > 32767 {
                assert_eq!(*new, 32767);
            } else if doubled < -32768 {
                assert_eq!(*new, -32768);
            } else {
                assert_eq!(*new as i32, doubled);
            }
        }
    }
}

// unit gain leaves the audio bytes alone
#[test]
fn law_gain_identity() {
    let samples = generate_sine_wave(300, 997.0, 44100);
    let frame = audio_frame(&samples, 1, 44100);
    let before = frame_samples(&frame);
    let mut gain = Gain::new(1, 1);
    let out = gain.apply(frame).unwrap();
    assert_eq!(frame_samples(&out), before);
}

// normalizing twice equals normalizing once
#[test]
fn law_normalize_idempotent() {
    let samples = generate_sine_wave(400, 523.0, 44100);
    let frame = audio_frame(&samples, 1, 44100);
    let mut norm = Normalize::new(95, 100);
    let once = norm.apply(frame).unwrap();
    let once_samples = frame_samples(&once);
    let twice = norm.apply(once).unwrap();
    assert_eq!(frame_samples(&twice), once_samples);
}

// stereo folded to mono averages each pair, rounding half away from zero
#[test]
fn scenario_mix_to_mono() {
    let left = generate_sine_wave(256, 440.0, 44100);
    let right = generate_sine_wave(256, 880.0, 44100);
    let mut samples = Vec::new();
    for (l, r) in left.iter().zip(right.iter()) {
        samples.push(*l);
        samples.push(*r);
    }
    let frame = audio_frame(&samples, 2, 44100);
    let mut mixer = ChannelMixer::stereo_to_mono();
    let out = mixer.apply(frame).unwrap();
    match &out.data {
        FrameData::Audio(a) => {
            assert_eq!(a.channels, 1);
            assert_eq!(a.nb_samples, 256);
            let mixed = frame_samples(&out);
            for i in 0..256 {
                let sum = left[i] as i32 + right[i] as i32;
                let expect = if sum >= 0 { (sum + 1) / 2 } else { -((1 - sum) / 2) };
                assert_eq!(mixed[i] as i32, expect, "sample {}", i);
            }
        }
        _ => panic!("expected audio"),
    }
}

// flipping horizontally twice gives the original planes back
#[test]
fn law_flip_involution() {
    let w = 4u32;
    let h = 2u32;
    let bytes: Vec<u8> = (0..12u8).collect();
    let frame = video_frame(w, h, &bytes);
    let flip = Flip::horizontal(w, h);
    let once = flip.apply_yuv420(&frame).unwrap();
    let twice = flip.apply_yuv420(&once).unwrap();
    assert_eq!(video_bytes(&twice), bytes);
}

// a half turn twice gives the original planes back
#[test]
fn law_rotate180_involution() {
    let w = 4u32;
    let h = 2u32;
    let bytes: Vec<u8> = (10..22u8).collect();
    let frame = video_frame(w, h, &bytes);
    let rot = Rotate::rotate_180(w, h);
    let once = rot.apply_yuv420(&frame).unwrap();
    let twice = rot.apply_yuv420(&once).unwrap();
    assert_eq!(video_bytes(&twice), bytes);
}

// cropping the full frame changes nothing
#[test]
fn law_crop_full_frame_identity() {
    let w = 4u32;
    let h = 2u32;
    let bytes: Vec<u8> = (100..112u8).collect();
    let frame = video_frame(w, h, &bytes);
    let crop = Crop::new(w, h, 0, 0, w, h);
    let out = crop.apply_yuv420(&frame).unwrap();
    assert_eq!(video_bytes(&out), bytes);
}

// nearest-neighbour scaling onto the same dimensions changes nothing
#[test]
fn law_scale_identity() {
    let w = 4u32;
    let h = 2u32;
    let bytes: Vec<u8> = (50..62u8).collect();
    let frame = video_frame(w, h, &bytes);
    let scale = Scale::new(w, h, w, h).with_mode(ScaleMode::NearestNeighbor);
    let out = scale.apply_yuv420(&frame).unwrap();
    assert_eq!(video_bytes(&out), bytes);
}

// the PCM decoder accounts for every payload byte as samples
#[test]
fn law_pcm_preserves_sample_count() {
    let samples = generate_sine_wave(512, 440.0, 44100);
    let input = build_wav(2, 44100, &samples);
    let cursor = Cursor::new(input.clone());
    let mut reader = WavReader::new(cursor).unwrap();
    let format = reader.format();
    let mut decoder = PcmDecoder::new(format);
    let mut total_nb = 0usize;
    let mut total_bytes = 0usize;
    while let Some(packet) = reader.read_packet().unwrap() {
        total_bytes += packet.size();
        if let Some(frame) = decoder.decode(packet).unwrap() {
            if let Some(a) = frame.audio() {
                total_nb += a.nb_samples;
            }
        }
    }
    assert_eq!(total_nb * format.channels as usize * 2, total_bytes);
}

// a found sync is always a parseable header
#[test]
fn law_find_sync_parses() {
    let mut bytes = vec![0x00u8, 0x12, 0xFF, 0x00];
    bytes.extend_from_slice(&[0xFF, 0xFB, 0x90, 0x00]);
    bytes.extend_from_slice(&[0u8; 8]);
    let idx = find_sync(&bytes).expect("sync expected");
    assert_eq!(idx, 4);
    let header = FrameHeader::parse(&bytes[idx..]).expect("header must parse at sync");
    assert_eq!(header.sample_rate, 44100);
    assert_eq!(header.channels, 2);
    assert_eq!(header.bitrate, 128000);
}

#[test]
fn law_find_sync_none_on_silence() {
    let bytes = vec![0u8; 64];
    assert!(find_sync(&bytes).is_none());
}

// a Y4M round trip preserves the header parameters it was given
#[test]
fn law_y4m_roundtrip_preserves_header() {
    let mut input = Vec::new();
    input.extend_from_slice(b"YUV4MPEG2 W32 H24 F25:2 It C420jpeg A128:117\n");
    let frame_size = 32 * 24 + 2 * (16 * 12);
    input.extend_from_slice(b"FRAME\n");
    input.extend(std::iter::repeat(7u8).take(frame_size));

    let mut reader = Y4mReader::new(Cursor::new(input)).unwrap();
    let format = reader.format();
    assert_eq!(format.width, 32);
    assert_eq!(format.height, 24);
    assert_eq!(format.framerate_num, 25);
    assert_eq!(format.framerate_den, 2);

    let mut writer = Y4mWriter::new(Vec::new(), format.clone()).unwrap();
    while let Some(p) = reader.read_packet().unwrap() {
        writer.write_packet(p).unwrap();
    }
    writer.finalize().unwrap();
    let written = writer.writer;

    let mut reread = Y4mReader::new(Cursor::new(written.clone())).unwrap();
    let format2 = reread.format();
    assert_eq!(format2.width, format.width);
    assert_eq!(format2.height, format.height);
    assert_eq!(format2.framerate_num, format.framerate_num);
    assert_eq!(format2.framerate_den, format.framerate_den);
    assert_eq!(format2.colorspace, format.colorspace);
    assert_eq!(format2.interlacing, format.interlacing);
    assert_eq!(format2.aspect_ratio, format.aspect_ratio);
    // the written header spells the aspect parameter as it was given
    let header_line: Vec<u8> = written.iter().cloned().take_while(|b| *b != b'\n').collect();
    let header_text = String::from_utf8(header_line).unwrap();
    assert!(header_text.contains("A128:117"));

    let p = reread.read_packet().unwrap().expect("one frame");
    assert_eq!(p.data.len(), frame_size);
    assert!(p.data.iter().all(|b| *b == 7));
}

// µ-law coding is stable at the quantisation points: a decoded value
// re-encodes to a byte carrying the same value
#[test]
fn law_ulaw_value_roundtrip() {
    for b in 0..=255u8 {
        let sample = ffmpreg::codecs::g711::ulaw_decode(b);
        let back = ffmpreg::codecs::g711::ulaw_encode(sample);
        let again = ffmpreg::codecs::g711::ulaw_decode(back);
        assert_eq!(again, sample, "byte {:#x}: {} re-coded as {}", b, sample, again);
    }
}

#[test]
fn law_alaw_value_roundtrip() {
    for b in 0..=255u8 {
        let sample = ffmpreg::codecs::g711::alaw_decode(b);
        let back = ffmpreg::codecs::g711::alaw_encode(sample);
        let again = ffmpreg::codecs::g711::alaw_decode(back);
        assert_eq!(again, sample, "byte {:#x}: {} re-coded as {}", b, sample, again);
    }
}

// the codec pair built on those bytes round-trips frame metadata
#[test]
fn g711_codec_pair_runs() {
    let samples = generate_sine_wave(64, 440.0, 8000);
    let frame = audio_frame(&samples, 1, 8000);
    let tb = Timebase::new(1, 8000);
    let mut enc = UlawEncoder::new(tb, 1);
    let packet = enc.encode(frame).unwrap().unwrap();
    assert_eq!(packet.data.len(), 64);
    let mut dec = UlawDecoder::new(WavFormat { channels: 1, sample_rate: 8000, bit_depth: 16 });
    let decoded = dec.decode(packet).unwrap().unwrap();
    let out = frame_samples(&decoded);
    assert_eq!(out.len(), 64);
    for (a, b) in samples.iter().zip(out.iter()) {
        assert!((*a as i32 - *b as i32).abs() < 2048, "{} vs {}", a, b);
    }
    let mut aenc = AlawEncoder::new(tb, 1);
    let mut adec = AlawDecoder::new(WavFormat { channels: 1, sample_rate: 8000, bit_depth: 16 });
    let frame2 = audio_frame(&samples, 1, 8000);
    let pkt2 = aenc.encode(frame2).unwrap().unwrap();
    let dec2 = adec.decode(pkt2).unwrap().unwrap();
    assert_eq!(frame_samples(&dec2).len(), 64);
}

// PCM encode then decode hands back the same bytes and timestamp
#[test]
fn law_pcm_codec_roundtrip() {
    let samples = generate_sine_wave(100, 440.0, 44100);
    let frame = audio_frame(&samples, 1, 44100).with_pts(77);
    let before = frame_samples(&frame);
    let tb = Timebase::new(1, 44100);
    let mut enc = PcmEncoder::new(tb);
    let packet = enc.encode(frame).unwrap().unwrap();
    assert_eq!(packet.pts, 77);
    let mut dec = PcmDecoder::new(WavFormat { channels: 1, sample_rate: 44100, bit_depth: 16 });
    let out = dec.decode(packet).unwrap().unwrap();
    assert_eq!(out.pts, 77);
    assert_eq!(frame_samples(&out), before);
}

// rejected inputs name their error
#[test]
fn error_wav_bad_magic() {
    let data = vec![0u8; 64];
    let err = match WavReader::new(Cursor::new(data)) {
        Ok(_) => panic!("zero bytes must not parse as WAV"),
        Err(e) => e,
    };
    assert_eq!(err.kind(), IoErrorKind::InvalidData);
}

#[test]
fn error_wav_wrong_depth() {
    let samples = generate_sine_wave(16, 440.0, 8000);
    let mut wav = build_wav(1, 8000, &samples);
    // rewrite the bit depth field to eight
    wav[34] = 8;
    wav[35] = 0;
    let err = match WavReader::new(Cursor::new(wav)) {
        Ok(_) => panic!("an eight-bit depth must be rejected"),
        Err(e) => e,
    };
    assert_eq!(err.kind(), IoErrorKind::InvalidData);
}

#[test]
fn error_truncated_read() {
    let mut cursor = Cursor::new(vec![1u8]);
    let err = cursor.read_u32_le().unwrap_err();
    assert_eq!(err.kind(), IoErrorKind::UnexpectedEof);
}

#[test]
fn error_unknown_transform() {
    let pipeline = Pipeline::new(
        String::from("a.wav"),
        Some(String::from("b.wav")),
        false,
        vec![String::from("sparkle=9")],
    );
    let samples = generate_sine_wave(8, 440.0, 8000);
    let input = build_wav(1, 8000, &samples);
    let err = pipeline.run(&input).unwrap_err();
    assert_eq!(err.kind(), IoErrorKind::InvalidData);
}

#[test]
fn error_unsupported_conversion() {
    let pipeline = Pipeline::new(
        String::from("a.wav"),
        Some(String::from("b.y4m")),
        false,
        Vec::new(),
    );
    let input = vec![0u8; 4];
    let err = pipeline.run(&input).unwrap_err();
    assert_eq!(err.kind(), IoErrorKind::InvalidData);
}

// the extension map drives the pipeline
#[test]
fn media_type_from_extension() {
    assert_eq!(MediaType::from_extension("x.wav"), MediaType::Wav);
    assert_eq!(MediaType::from_extension("x.WAV"), MediaType::Wav);
    assert_eq!(MediaType::from_extension("x.y4m"), MediaType::Y4m);
    assert_eq!(MediaType::from_extension("x.flac"), MediaType::Flac);
    assert_eq!(MediaType::from_extension("x.mp3"), MediaType::Mp3);
    assert_eq!(MediaType::from_extension("x.oga"), MediaType::Ogg);
    assert_eq!(MediaType::from_extension("x.m4v"), MediaType::Mp4);
    assert_eq!(MediaType::from_extension("x.txt"), MediaType::Unknown);
    assert!(MediaType::Wav.is_audio());
    assert!(MediaType::Y4m.is_video());
}

// a pipeline run over wav with a gain transform still produces a well
// formed file
#[test]
fn pipeline_wav_gain_runs() {
    let samples = generate_sine_wave(64, 440.0, 8000);
    let input = build_wav(1, 8000, &samples);
    let pipeline = Pipeline::new(
        String::from("in.wav"),
        Some(String::from("out.wav")),
        false,
        vec![String::from("gain=0.5")],
    );
    let output = pipeline.run(&input).unwrap();
    assert_eq!(output.len(), input.len());
    let reread = WavReader::new(Cursor::new(output)).unwrap();
    assert_eq!(reread.format().sample_rate, 8000);
}

// the outside Vorbis decoder refuses bytes that are not a stream; if the
// wrapper handed its input back unchanged this would not fail
#[test]
fn vorbis_rejects_garbage() {
    let garbage = vec![0x55u8; 256];
    assert!(ffmpreg::codecs::vorbis::decode::VorbisDecoder::from_ogg_data(&garbage).is_err());
}

// the silent MP3 decoder seeds itself from a real header
#[test]
fn mp3_decoder_from_header() {
    let header = [0xFFu8, 0xFB, 0x90, 0x00];
    let dec = ffmpreg::codecs::Mp3Decoder::from_header(&header).expect("header parses");
    assert_eq!(dec.sample_rate, 44100);
    assert_eq!(dec.channels, 2);
    assert!(ffmpreg::codecs::Mp3Decoder::from_header(&[0u8; 4]).is_none());
}

// a FLAC header written by the library starts with the signature and the
// last-metadata STREAMINFO block
#[test]
fn flac_header_layout() {
    let format = ffmpreg::container::FlacFormat {
        min_block_size: 4096,
        max_block_size: 4096,
        min_frame_size: 0,
        max_frame_size: 0,
        sample_rate: 44100,
        channels: 2,
        bits_per_sample: 16,
        total_samples: 512,
        md5_signature: [0u8; 16],
    };
    let mut writer = ffmpreg::container::FlacWriter::new(Vec::new(), format).unwrap();
    writer.finalize().unwrap();
    let bytes = writer.writer;
    assert_eq!(&bytes[0..4], b"fLaC");
    assert_eq!(bytes[4], 0x80);
    assert_eq!(bytes[7], 34);
    assert_eq!(bytes.len(), 8 + 34);
    // the packed field opens with the twenty-bit sample rate
    let rate = ((bytes[18] as u32) << 12) | ((bytes[19] as u32) << 4) | ((bytes[20] as u32) >> 4);
    assert_eq!(rate, 44100);
}

// the resampler rewrites rate, count, and timebase
#[test]
fn resample_counts_and_pts() {
    let samples = generate_sine_wave(100, 440.0, 8000);
    let frame = audio_frame(&samples, 1, 8000).with_pts(50);
    let mut rs = ffmpreg::transform::Resample::new(16000);
    let out = rs.apply(frame).unwrap();
    match &out.data {
        FrameData::Audio(a) => {
            assert_eq!(a.sample_rate, 16000);
            assert_eq!(a.nb_samples, 200);
        }
        _ => panic!("expected audio"),
    }
    assert_eq!(out.pts, 100);
    assert_eq!(out.timebase, Timebase::new(1, 16000));
}
