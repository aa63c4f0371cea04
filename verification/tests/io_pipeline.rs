use ffmpreg::codecs::{PcmDecoder, PcmEncoder, RawVideoDecoder, RawVideoEncoder};
use ffmpreg::container::{WavFormat, WavReader, WavWriter, Y4mReader, Y4mWriter};
use ffmpreg::io::{
    BufferedReader, BufferedWriter, Cursor, MediaRead, MediaSeek, MediaWrite, ReadPrimitives,
    SeekFrom, WritePrimitives,
};
use ffmpreg::model::{Decoder, Demuxer, Encoder, Muxer, Packet, Timebase, Transform};
use ffmpreg::transform::{Gain, Normalize, TransformChain, TransformKind};

fn generate_sine_wave(samples: usize, frequency: f32, sample_rate: u32) -> Vec<i16> {
    let mut data = Vec::with_capacity(samples);
    for i in 0..samples {
        let t = i as f32 / sample_rate as f32;
        let sample = (2.0 * std::f32::consts::PI * frequency * t).sin() * 16000.0;
        data.push(sample as i16);
    }
    data
}

fn build_wav(channels: u16, sample_rate: u32, samples: &[i16]) -> Vec<u8> {
    let bits_per_sample: u16 = 16;
    let data_size = samples.len() * 2;
    let file_size = 36 + data_size;
    let mut wav = Vec::new();
    wav.extend_from_slice(b"RIFF");
    wav.extend_from_slice(&(file_size as u32).to_le_bytes());
    wav.extend_from_slice(b"WAVE");
    wav.extend_from_slice(b"fmt ");
    wav.extend_from_slice(&16u32.to_le_bytes());
    wav.extend_from_slice(&1u16.to_le_bytes());
    wav.extend_from_slice(&channels.to_le_bytes());
    wav.extend_from_slice(&sample_rate.to_le_bytes());
    let byte_rate = sample_rate * channels as u32 * bits_per_sample as u32 / 8;
    wav.extend_from_slice(&byte_rate.to_le_bytes());
    let block_align = channels * bits_per_sample / 8;
    wav.extend_from_slice(&block_align.to_le_bytes());
    wav.extend_from_slice(&bits_per_sample.to_le_bytes());
    wav.extend_from_slice(b"data");
    wav.extend_from_slice(&(data_size as u32).to_le_bytes());
    for sample in samples {
        wav.extend_from_slice(&sample.to_le_bytes());
    }
    wav
}

fn create_test_wav_data() -> Vec<u8> {
    let samples = generate_sine_wave(512, 440.0, 44100);
    build_wav(1, 44100, &samples)
}

fn create_test_wav_stereo_data() -> Vec<u8> {
    let left = generate_sine_wave(256, 440.0, 44100);
    let right = generate_sine_wave(256, 880.0, 44100);
    let mut samples = Vec::with_capacity(512);
    for (l, r) in left.iter().zip(right.iter()) {
        samples.push(*l);
        samples.push(*r);
    }
    build_wav(2, 44100, &samples)
}

fn create_test_y4m_data() -> Vec<u8> {
    let mut out = Vec::new();
    out.extend_from_slice(b"YUV4MPEG2 W320 H240 F30:1 Ip A1:1 C420\n");
    let frame_size = 320 * 240 + 2 * (160 * 120);
    for f in 0..3u8 {
        out.extend_from_slice(b"FRAME\n");
        for i in 0..frame_size {
            out.push(((i as u32 + f as u32) % 251) as u8);
        }
    }
    out
}

fn create_test_y4m_no_colorspace() -> Vec<u8> {
    let mut out = Vec::new();
    out.extend_from_slice(b"YUV4MPEG2 W32 H24 F25:1 Ip A128:117\n");
    let frame_size = 32 * 24 + 2 * (16 * 12);
    out.extend_from_slice(b"FRAME\n");
    for i in 0..frame_size {
        out.push((i % 251) as u8);
    }
    out
}

#[test]
fn test_cursor_read_write_roundtrip() {
    let original = vec![1u8, 2, 3, 4, 5, 6, 7, 8];
    let mut cursor = Cursor::new(original.clone());

    let mut buf = vec![0u8; 4];
    let n = cursor.read(&mut buf).unwrap();
    assert_eq!(n, 4);
    assert_eq!(&buf[..], &[1, 2, 3, 4]);

    let n = cursor.read(&mut buf).unwrap();
    assert_eq!(n, 4);
    assert_eq!(&buf[..], &[5, 6, 7, 8]);

    let n = cursor.read(&mut buf).unwrap();
    assert_eq!(n, 0);
}

#[test]
fn test_cursor_write_vec() {
    let mut cursor = Cursor::new(Vec::new());

    cursor.write_all(&[1, 2, 3, 4]).unwrap();
    cursor.write_all(&[5, 6, 7, 8]).unwrap();

    let data = cursor.into_inner();
    assert_eq!(data, vec![1, 2, 3, 4, 5, 6, 7, 8]);
}

#[test]
fn test_cursor_seek() {
    let data = vec![0u8, 1, 2, 3, 4, 5, 6, 7];
    let mut cursor = Cursor::new(data);

    cursor.seek(SeekFrom::Start(4)).unwrap();
    assert_eq!(cursor.position(), 4);

    let byte = cursor.read_u8().unwrap();
    assert_eq!(byte, 4);

    cursor.seek(SeekFrom::Current(-2)).unwrap();
    let byte = cursor.read_u8().unwrap();
    assert_eq!(byte, 3);

    cursor.seek(SeekFrom::End(-1)).unwrap();
    let byte = cursor.read_u8().unwrap();
    assert_eq!(byte, 7);
}

#[test]
fn test_buffered_reader() {
    let data = vec![1u8, 2, 3, 4, 5, 6, 7, 8, 9, 10];
    let cursor = Cursor::new(data);
    let mut buffered = BufferedReader::with_capacity(4, cursor);

    let mut buf = vec![0u8; 2];
    buffered.read_exact(&mut buf).unwrap();
    assert_eq!(&buf[..], &[1, 2]);

    buffered.read_exact(&mut buf).unwrap();
    assert_eq!(&buf[..], &[3, 4]);

    buffered.read_exact(&mut buf).unwrap();
    assert_eq!(&buf[..], &[5, 6]);
}

#[test]
fn test_buffered_writer() {
    let output = Vec::new();
    let mut buffered = BufferedWriter::with_capacity(8, output);

    buffered.write_all(&[1, 2, 3, 4]).unwrap();
    buffered.write_all(&[5, 6, 7, 8]).unwrap();
    buffered.flush().unwrap();

    let data = buffered.into_inner();
    assert_eq!(data, vec![1, 2, 3, 4, 5, 6, 7, 8]);
}

#[test]
fn test_wav_roundtrip_with_io_abstractions() {
    let wav_data = create_test_wav_data();
    let cursor = Cursor::new(wav_data);

    let mut reader = WavReader::new(cursor).unwrap();
    let format = reader.format();

    let output_buffer = Cursor::new(Vec::new());
    let mut writer = WavWriter::new(output_buffer, format).unwrap();

    let mut decoder = PcmDecoder::new(format);
    let timebase = Timebase::new(1, format.sample_rate);
    let mut encoder = PcmEncoder::new(timebase);

    let mut packet_count = 0;
    loop {
        match reader.read_packet().unwrap() {
            Some(packet) => {
                packet_count += 1;
                if let Some(frame) = decoder.decode(packet).unwrap() {
                    if let Some(pkt) = encoder.encode(frame).unwrap() {
                        writer.write_packet(pkt).unwrap();
                    }
                }
            }
            None => break,
        }
    }

    assert!(packet_count > 0);
    writer.finalize().unwrap();
}

#[test]
fn test_wav_with_gain_transform_io() {
    let wav_data = create_test_wav_data();
    let cursor = Cursor::new(wav_data);

    let mut reader = WavReader::new(cursor).unwrap();
    let format = reader.format();

    let output_buffer = Cursor::new(Vec::new());
    let mut writer = WavWriter::new(output_buffer, format).unwrap();

    let mut decoder = PcmDecoder::new(format);
    let timebase = Timebase::new(1, format.sample_rate);
    let mut encoder = PcmEncoder::new(timebase);
    let mut gain = Gain::new(2, 1);

    loop {
        match reader.read_packet().unwrap() {
            Some(packet) => {
                if let Some(frame) = decoder.decode(packet).unwrap() {
                    let processed = gain.apply(frame).unwrap();
                    if let Some(pkt) = encoder.encode(processed).unwrap() {
                        writer.write_packet(pkt).unwrap();
                    }
                }
            }
            None => break,
        }
    }

    writer.finalize().unwrap();
}

#[test]
fn test_wav_with_transform_chain_io() {
    let wav_data = create_test_wav_data();
    let cursor = Cursor::new(wav_data);

    let mut reader = WavReader::new(cursor).unwrap();
    let format = reader.format();

    let output_buffer = Cursor::new(Vec::new());
    let mut writer = WavWriter::new(output_buffer, format).unwrap();

    let mut decoder = PcmDecoder::new(format);
    let timebase = Timebase::new(1, format.sample_rate);
    let mut encoder = PcmEncoder::new(timebase);

    let mut chain = TransformChain::new();
    chain.add(TransformKind::Gain(Gain::new(1, 2)));
    chain.add(TransformKind::Normalize(Normalize::new(9, 10)));

    loop {
        match reader.read_packet().unwrap() {
            Some(packet) => {
                if let Some(frame) = decoder.decode(packet).unwrap() {
                    let processed = chain.apply(frame).unwrap();
                    if let Some(pkt) = encoder.encode(processed).unwrap() {
                        writer.write_packet(pkt).unwrap();
                    }
                }
            }
            None => break,
        }
    }

    writer.finalize().unwrap();
}

#[test]
fn test_y4m_roundtrip_with_io_abstractions() {
    let y4m_data = create_test_y4m_data();
    let cursor = Cursor::new(y4m_data);

    let mut reader = Y4mReader::new(cursor).unwrap();
    let format = reader.format();

    let output_buffer = Cursor::new(Vec::new());
    let buf_writer = BufferedWriter::new(output_buffer);
    let mut writer = Y4mWriter::new(buf_writer, format.clone()).unwrap();

    let timebase = Timebase::new(format.framerate_den, format.framerate_num);
    let mut decoder = RawVideoDecoder::new(format);
    let mut encoder = RawVideoEncoder::new(timebase);

    let mut frame_count = 0;
    loop {
        match reader.read_packet().unwrap() {
            Some(packet) => {
                if let Some(frame) = decoder.decode(packet).unwrap() {
                    if let Some(pkt) = encoder.encode(frame).unwrap() {
                        writer.write_packet(pkt).unwrap();
                        frame_count += 1;
                    }
                }
            }
            None => break,
        }
    }

    writer.finalize().unwrap();
    assert_eq!(frame_count, 3);
}

#[test]
fn test_stereo_wav_io_roundtrip() {
    let wav_data = create_test_wav_stereo_data();
    let cursor = Cursor::new(wav_data);

    let mut reader = WavReader::new(cursor).unwrap();
    let format = reader.format();

    assert_eq!(format.channels, 2);

    let output_buffer = Cursor::new(Vec::new());
    let mut writer = WavWriter::new(output_buffer, format).unwrap();

    let mut decoder = PcmDecoder::new(format);
    let timebase = Timebase::new(1, format.sample_rate);
    let mut encoder = PcmEncoder::new(timebase);

    loop {
        match reader.read_packet().unwrap() {
            Some(packet) => {
                if let Some(frame) = decoder.decode(packet).unwrap() {
                    if let Some(pkt) = encoder.encode(frame).unwrap() {
                        writer.write_packet(pkt).unwrap();
                    }
                }
            }
            None => break,
        }
    }

    writer.finalize().unwrap();
}

#[test]
fn test_vec_as_media_write() {
    let mut vec = Vec::new();

    vec.write_all(&[1, 2, 3, 4]).unwrap();
    vec.write_all(&[5, 6, 7, 8]).unwrap();

    assert_eq!(vec, vec![1, 2, 3, 4, 5, 6, 7, 8]);
}

#[test]
fn test_read_primitives() {
    let data = vec![0x01, 0x02, 0x03, 0x04, 0x05, 0x06, 0xFE, 0xFF];
    let mut cursor = Cursor::new(data);

    let val_u16_le = cursor.read_u16_le().unwrap();
    assert_eq!(val_u16_le, 0x0201);

    let val_u32_le = cursor.read_u32_le().unwrap();
    assert_eq!(val_u32_le, 0x06050403);

    let val_i16_le = cursor.read_i16_le().unwrap();
    assert_eq!(val_i16_le, -2);
}

#[test]
fn test_write_primitives() {
    let mut cursor = Cursor::new(Vec::new());

    cursor.write_u16_le(0x0201).unwrap();
    cursor.write_u32_le(0x06050403).unwrap();
    cursor.write_i16_le(-2).unwrap();

    let data = cursor.into_inner();
    assert_eq!(data, vec![0x01, 0x02, 0x03, 0x04, 0x05, 0x06, 0xFE, 0xFF]);
}

#[test]
fn test_y4m_aspect_ratio_io() {
    let y4m_data = create_test_y4m_no_colorspace();
    let cursor = Cursor::new(y4m_data);

    let mut reader = Y4mReader::new(cursor).unwrap();
    let format = reader.format();

    assert!(format.aspect_ratio.is_some());
    let aspect = format.aspect_ratio.unwrap();
    assert_eq!(aspect.num, 128);
    assert_eq!(aspect.den, 117);

    let output_buffer = Cursor::new(Vec::new());
    let buf_writer = BufferedWriter::new(output_buffer);
    let mut writer = Y4mWriter::new(buf_writer, format.clone()).unwrap();

    loop {
        match reader.read_packet().unwrap() {
            Some(packet) => {
                writer.write_packet(packet).unwrap();
            }
            None => break,
        }
    }

    writer.finalize().unwrap();
}

#[test]
fn test_wav_format_properties() {
    let format = WavFormat { channels: 2, sample_rate: 48000, bit_depth: 16 };

    assert_eq!(format.bytes_per_sample(), 2);
    assert_eq!(format.bytes_per_frame(), 4);
}

#[test]
fn test_wav_writer_placeholder_header() {
    let format = WavFormat { channels: 1, sample_rate: 44100, bit_depth: 16 };
    let sink: Vec<u8> = Vec::new();
    let writer = WavWriter::new(sink, format).unwrap();
    let out = writer.into_inner();
    assert_eq!(out.len(), 44);
    assert_eq!(&out[0..4], b"RIFF");
    assert_eq!(&out[4..8], &36u32.to_le_bytes());
    assert_eq!(&out[8..12], b"WAVE");
    assert_eq!(&out[12..16], b"fmt ");
    assert_eq!(&out[36..40], b"data");
    assert_eq!(&out[40..44], &0u32.to_le_bytes());
}

#[test]
fn test_wav_writer_finalize_patches_sizes() {
    let format = WavFormat { channels: 1, sample_rate: 8000, bit_depth: 16 };
    let sink: Vec<u8> = Vec::new();
    let mut writer = WavWriter::new(sink, format).unwrap();
    let payload: Vec<u8> = vec![1, 2, 3, 4, 5, 6];
    let packet = Packet::new(payload.clone(), 0, Timebase::new(1, 8000));
    writer.write_packet(packet).unwrap();
    writer.finalize().unwrap();
    writer.finalize().unwrap();
    let out = writer.into_inner();
    assert_eq!(out.len(), 44 + 6);
    assert_eq!(&out[4..8], &(36u32 + 6).to_le_bytes());
    assert_eq!(&out[40..44], &6u32.to_le_bytes());
    assert_eq!(&out[44..], &payload[..]);
}

#[test]
fn test_y4m_rejects_zero_framerate() {
    let mut data: Vec<u8> = Vec::new();
    data.extend_from_slice(b"YUV4MPEG2 W4 H4 F0:1 Ip C420\n");
    data.extend_from_slice(b"FRAME\n");
    data.extend_from_slice(&[0u8; 24]);
    let cursor = Cursor::new(data);
    assert!(Y4mReader::new(cursor).is_err());
}
