use vstd::prelude::*;

use crate::codecs::mp3::bits::{bits_val, BitReader};

verus! {

#[derive(Debug, Clone, Copy, PartialEq, Eq, Structural)]
pub enum MpegVersion {
    Mpeg1,
    Mpeg2,
    Mpeg25,
}

#[derive(Debug, Clone, Copy, PartialEq, Eq, Structural)]
pub enum Layer {
    Layer1,
    Layer2,
    Layer3,
}

#[derive(Debug, Clone, Copy, PartialEq, Eq, Structural)]
pub enum ChannelMode {
    Stereo,
    JointStereo,
    DualChannel,
    Mono,
}

/// The kilobit rates of the standard table, by version group, layer, and
/// the four-bit index.
pub open spec fn bitrate_kbps(vgroup: int, lidx: int, idx: int) -> int {
    let row: Seq<int> = if vgroup == 0 {
        if lidx == 0 {
            seq![0, 32, 64, 96, 128, 160, 192, 224, 256, 288, 320, 352, 384, 416, 448]
        } else if lidx == 1 {
            seq![0, 32, 48, 56, 64, 80, 96, 112, 128, 160, 192, 224, 256, 320, 384]
        } else {
            seq![0, 32, 40, 48, 56, 64, 80, 96, 112, 128, 160, 192, 224, 256, 320]
        }
    } else {
        if lidx == 0 {
            seq![0, 32, 48, 56, 64, 80, 96, 112, 128, 144, 160, 176, 192, 224, 256]
        } else {
            seq![0, 8, 16, 24, 32, 40, 48, 56, 64, 80, 96, 112, 128, 144, 160]
        }
    };
    if 0 <= idx < 15 {
        row[idx]
    } else {
        0
    }
}

/// The sample rates of the standard table, by version and the two-bit
/// index.
pub open spec fn sample_rate_of(version: MpegVersion, idx: int) -> int {
    let row: Seq<int> = match version {
        MpegVersion::Mpeg1 => seq![44100, 48000, 32000],
        MpegVersion::Mpeg2 => seq![22050, 24000, 16000],
        MpegVersion::Mpeg25 => seq![11025, 12000, 8000],
    };
    if 0 <= idx < 3 {
        row[idx]
    } else {
        0
    }
}

/// Everything the four header bytes carry, plus the frame size and channel
/// count they determine.
#[derive(Debug, Clone, Copy, PartialEq, Eq, Structural)]
pub struct FrameHeader {
    pub version: MpegVersion,
    pub layer: Layer,
    pub crc_protection: bool,
    pub bitrate: u32,
    pub sample_rate: u32,
    pub padding: bool,
    pub private_bit: bool,
    pub channel_mode: ChannelMode,
    pub mode_extension: u8,
    pub copyright: bool,
    pub original: bool,
    pub emphasis: u8,
    pub frame_size: usize,
    pub channels: u8,
}

/// What parsing the first four bytes gives: the eleven-bit sync word, the
/// version, layer and channel fields, the table lookups, and the canonical
/// frame-size formula; reserved values give nothing.
pub open spec fn parse_header_spec(d: Seq<u8>) -> Option<FrameHeader> {
    if d.len() < 4 {
        None
    } else if bits_val(d, 0, 11) != 0x7FF {
        None
    } else {
        let version_bits = bits_val(d, 11, 2);
        let layer_bits = bits_val(d, 13, 2);
        let crc_protection = bits_val(d, 15, 1) == 0;
        let bitrate_index = bits_val(d, 16, 4);
        let sample_rate_index = bits_val(d, 20, 2);
        let padding = bits_val(d, 22, 1) == 1;
        let private_bit = bits_val(d, 23, 1) == 1;
        let channel_mode_bits = bits_val(d, 24, 2);
        let mode_extension = bits_val(d, 26, 2);
        let copyright = bits_val(d, 28, 1) == 1;
        let original = bits_val(d, 29, 1) == 1;
        let emphasis = bits_val(d, 30, 2);
        if version_bits == 1 {
            None
        } else if layer_bits == 0 {
            None
        } else if bitrate_index == 0 || bitrate_index == 15 || sample_rate_index == 3 {
            None
        } else {
            let version = if version_bits == 0 {
                MpegVersion::Mpeg25
            } else if version_bits == 2 {
                MpegVersion::Mpeg2
            } else {
                MpegVersion::Mpeg1
            };
            let layer = if layer_bits == 1 {
                Layer::Layer3
            } else if layer_bits == 2 {
                Layer::Layer2
            } else {
                Layer::Layer1
            };
            let channel_mode = if channel_mode_bits == 0 {
                ChannelMode::Stereo
            } else if channel_mode_bits == 1 {
                ChannelMode::JointStereo
            } else if channel_mode_bits == 2 {
                ChannelMode::DualChannel
            } else {
                ChannelMode::Mono
            };
            let vgroup: int = if version is Mpeg1 {
                0
            } else {
                1
            };
            let lidx: int = match layer {
                Layer::Layer1 => 0,
                Layer::Layer2 => 1,
                Layer::Layer3 => 2,
            };
            let bitrate = bitrate_kbps(vgroup, lidx, bitrate_index) * 1000;
            let sample_rate = sample_rate_of(version, sample_rate_index);
            let pad: int = if padding {
                1
            } else {
                0
            };
            let frame_size: int = if layer is Layer1 {
                (12 * bitrate / sample_rate + pad) * 4
            } else {
                let spf: int = if version is Mpeg1 && layer is Layer3 {
                    1152
                } else if layer is Layer3 {
                    576
                } else {
                    1152
                };
                spf * bitrate / 8 / sample_rate + pad
            };
            Some(
                FrameHeader {
                    version,
                    layer,
                    crc_protection,
                    bitrate: bitrate as u32,
                    sample_rate: sample_rate as u32,
                    padding,
                    private_bit,
                    channel_mode,
                    mode_extension: mode_extension as u8,
                    copyright,
                    original,
                    emphasis: emphasis as u8,
                    frame_size: frame_size as usize,
                    channels: if channel_mode is Mono {
                        1
                    } else {
                        2
                    },
                },
            )
        }
    }
}

/// The kilobit row for a version group and layer, as `bitrate_kbps` lists
/// it.
fn bitrate_row(vgroup: u32, lidx: u32) -> (r: Vec<u32>)
    ensures
        r@.len() == 15,
        forall|i: int|
            0 <= i < 15 ==> r@[i] == bitrate_kbps(vgroup as int, lidx as int, i),
{
    let row: Vec<u32> = if vgroup == 0 {
        if lidx == 0 {
            vec![0, 32, 64, 96, 128, 160, 192, 224, 256, 288, 320, 352, 384, 416, 448]
        } else if lidx == 1 {
            vec![0, 32, 48, 56, 64, 80, 96, 112, 128, 160, 192, 224, 256, 320, 384]
        } else {
            vec![0, 32, 40, 48, 56, 64, 80, 96, 112, 128, 160, 192, 224, 256, 320]
        }
    } else {
        if lidx == 0 {
            vec![0, 32, 48, 56, 64, 80, 96, 112, 128, 144, 160, 176, 192, 224, 256]
        } else {
            vec![0, 8, 16, 24, 32, 40, 48, 56, 64, 80, 96, 112, 128, 144, 160]
        }
    };
    row
}

impl FrameHeader {
    /// Parses the four header bytes, exactly as `parse_header_spec` says.
    pub fn parse(data: &[u8]) -> (r: Option<FrameHeader>)
        ensures
            r == parse_header_spec(data@),
    {
        if data.len() < 4 {
            return None;
        }
        let head: Vec<u8> = vec![
            *vstd::slice::slice_index_get(data, 0),
            *vstd::slice::slice_index_get(data, 1),
            *vstd::slice::slice_index_get(data, 2),
            *vstd::slice::slice_index_get(data, 3),
        ];
        let mut reader = BitReader::new(head.as_slice());
        let sync = reader.read_bits(11).unwrap_or(0);
        let version_bits = reader.read_bits(2).unwrap_or(0);
        let layer_bits = reader.read_bits(2).unwrap_or(0);
        let crc_bit = reader.read_bits(1).unwrap_or(0);
        let bitrate_index = reader.read_bits(4).unwrap_or(0);
        let sample_rate_index = reader.read_bits(2).unwrap_or(0);
        let padding_bit = reader.read_bits(1).unwrap_or(0);
        let private_bit = reader.read_bits(1).unwrap_or(0);
        let channel_mode_bits = reader.read_bits(2).unwrap_or(0);
        let mode_extension = reader.read_bits(2).unwrap_or(0);
        let copyright_bit = reader.read_bits(1).unwrap_or(0);
        let original_bit = reader.read_bits(1).unwrap_or(0);
        let emphasis = reader.read_bits(2).unwrap_or(0);
        proof {
            let d = data@;
            let hd = head@;
            crate::codecs::mp3::bits::lemma_bits_val_same_prefix(hd, d, 0, 11);
            crate::codecs::mp3::bits::lemma_bits_val_same_prefix(hd, d, 11, 2);
            crate::codecs::mp3::bits::lemma_bits_val_same_prefix(hd, d, 13, 2);
            crate::codecs::mp3::bits::lemma_bits_val_same_prefix(hd, d, 15, 1);
            crate::codecs::mp3::bits::lemma_bits_val_same_prefix(hd, d, 16, 4);
            crate::codecs::mp3::bits::lemma_bits_val_same_prefix(hd, d, 20, 2);
            crate::codecs::mp3::bits::lemma_bits_val_same_prefix(hd, d, 22, 1);
            crate::codecs::mp3::bits::lemma_bits_val_same_prefix(hd, d, 23, 1);
            crate::codecs::mp3::bits::lemma_bits_val_same_prefix(hd, d, 24, 2);
            crate::codecs::mp3::bits::lemma_bits_val_same_prefix(hd, d, 26, 2);
            crate::codecs::mp3::bits::lemma_bits_val_same_prefix(hd, d, 28, 1);
            crate::codecs::mp3::bits::lemma_bits_val_same_prefix(hd, d, 29, 1);
            crate::codecs::mp3::bits::lemma_bits_val_same_prefix(hd, d, 30, 2);
            crate::codecs::mp3::bits::lemma_bits_val_bound(hd, 16, 4);
            crate::codecs::mp3::bits::lemma_bits_val_bound(hd, 20, 2);
            crate::codecs::mp3::bits::lemma_bits_val_bound(hd, 26, 2);
            crate::codecs::mp3::bits::lemma_bits_val_bound(hd, 30, 2);
            vstd::arithmetic::power2::lemma2_to64();
        }
        if sync != 0x7FF {
            return None;
        }
        if version_bits == 1 {
            return None;
        }
        if layer_bits == 0 {
            return None;
        }
        if bitrate_index == 0 || bitrate_index == 15 || sample_rate_index == 3 {
            return None;
        }
        let version = if version_bits == 0 {
            MpegVersion::Mpeg25
        } else if version_bits == 2 {
            MpegVersion::Mpeg2
        } else {
            MpegVersion::Mpeg1
        };
        let layer = if layer_bits == 1 {
            Layer::Layer3
        } else if layer_bits == 2 {
            Layer::Layer2
        } else {
            Layer::Layer1
        };
        let channel_mode = if channel_mode_bits == 0 {
            ChannelMode::Stereo
        } else if channel_mode_bits == 1 {
            ChannelMode::JointStereo
        } else if channel_mode_bits == 2 {
            ChannelMode::DualChannel
        } else {
            ChannelMode::Mono
        };
        let vgroup: u32 = match version {
            MpegVersion::Mpeg1 => 0,
            _ => 1,
        };
        let lidx: u32 = match layer {
            Layer::Layer1 => 0,
            Layer::Layer2 => 1,
            Layer::Layer3 => 2,
        };
        let row = bitrate_row(vgroup, lidx);
        let kbps = row[bitrate_index as usize];
        proof {
            assert(bitrate_kbps(vgroup as int, lidx as int, bitrate_index as int) <= 448);
            assert(bitrate_kbps(vgroup as int, lidx as int, bitrate_index as int) >= 0);
        }
        let bitrate: u32 = kbps * 1000;
        let sample_rate: u32 = match version {
            MpegVersion::Mpeg1 => {
                if sample_rate_index == 0 {
                    44100
                } else if sample_rate_index == 1 {
                    48000
                } else {
                    32000
                }
            },
            MpegVersion::Mpeg2 => {
                if sample_rate_index == 0 {
                    22050
                } else if sample_rate_index == 1 {
                    24000
                } else {
                    16000
                }
            },
            MpegVersion::Mpeg25 => {
                if sample_rate_index == 0 {
                    11025
                } else if sample_rate_index == 1 {
                    12000
                } else {
                    8000
                }
            },
        };
        let pad: u32 = if padding_bit == 1 {
            1
        } else {
            0
        };
        let frame_size: usize = match layer {
            Layer::Layer1 => ((12 * bitrate / sample_rate + pad) * 4) as usize,
            _ => {
                let spf: u32 = match (version, layer) {
                    (MpegVersion::Mpeg1, Layer::Layer3) => 1152,
                    (_, Layer::Layer3) => 576,
                    _ => 1152,
                };
                proof {
                    vstd::arithmetic::mul::lemma_mul_upper_bound(
                        spf as int,
                        1152,
                        bitrate as int,
                        448000,
                    );
                    vstd::arithmetic::mul::lemma_mul_nonnegative(spf as int, bitrate as int);
                    vstd::arithmetic::div_mod::lemma_div_is_ordered_by_denominator(
                        spf as int * bitrate as int,
                        1,
                        8,
                    );
                    vstd::arithmetic::div_mod::lemma_div_is_ordered_by_denominator(
                        spf as int * bitrate as int / 8,
                        1,
                        sample_rate as int,
                    );
                }
                let num: u64 = spf as u64 * bitrate as u64;
                ((num / 8 / sample_rate as u64) as u32 + pad) as usize
            },
        };
        Some(
            FrameHeader {
                version,
                layer,
                crc_protection: crc_bit == 0,
                bitrate,
                sample_rate,
                padding: padding_bit == 1,
                private_bit: private_bit == 1,
                channel_mode,
                mode_extension: mode_extension as u8,
                copyright: copyright_bit == 1,
                original: original_bit == 1,
                emphasis: emphasis as u8,
                frame_size,
                channels: match channel_mode {
                    ChannelMode::Mono => 1,
                    _ => 2,
                },
            },
        )
    }

    pub fn samples_per_frame(&self) -> (r: usize)
        ensures
            r == (match (self.version, self.layer) {
                (MpegVersion::Mpeg1, Layer::Layer1) => 384int,
                (MpegVersion::Mpeg1, _) => 1152int,
                (_, Layer::Layer1) => 384int,
                (_, Layer::Layer3) => 576int,
                (_, _) => 1152int,
            }),
    {
        match (self.version, self.layer) {
            (MpegVersion::Mpeg1, Layer::Layer1) => 384,
            (MpegVersion::Mpeg1, _) => 1152,
            (_, Layer::Layer1) => 384,
            (_, Layer::Layer3) => 576,
            (_, _) => 1152,
        }
    }

    pub fn side_info_size(&self) -> (r: usize)
        ensures
            r == (match (self.version, self.channel_mode) {
                (MpegVersion::Mpeg1, ChannelMode::Mono) => 17int,
                (MpegVersion::Mpeg1, _) => 32int,
                (_, ChannelMode::Mono) => 9int,
                (_, _) => 17int,
            }),
    {
        match (self.version, self.channel_mode) {
            (MpegVersion::Mpeg1, ChannelMode::Mono) => 17,
            (MpegVersion::Mpeg1, _) => 32,
            (_, ChannelMode::Mono) => 9,
            (_, _) => 17,
        }
    }

    pub fn is_intensity_stereo(&self) -> (r: bool)
        ensures
            r == (self.channel_mode is JointStereo && self.mode_extension & 0x01 != 0),
    {
        match self.channel_mode {
            ChannelMode::JointStereo => self.mode_extension & 0x01 != 0,
            _ => false,
        }
    }

    pub fn is_ms_stereo(&self) -> (r: bool)
        ensures
            r == (self.channel_mode is JointStereo && self.mode_extension & 0x02 != 0),
    {
        match self.channel_mode {
            ChannelMode::JointStereo => self.mode_extension & 0x02 != 0,
            _ => false,
        }
    }
}

/// An offset carrying the sync byte pattern at which a frame header
/// parses.
pub open spec fn sync_at(data: Seq<u8>, i: int) -> bool {
    &&& 0 <= i
    &&& i + 1 < data.len()
    &&& data[i] == 0xFFu8
    &&& data[i + 1] & 0xE0 == 0xE0u8
    &&& parse_header_spec(data.skip(i)) is Some
}

/// Scans for the smallest offset whose bytes begin a parseable frame
/// header: `None` exactly when no offset qualifies.
#[verifier::loop_isolation(false)]
pub fn find_sync(data: &[u8]) -> (r: Option<usize>)
    ensures
        r matches Some(i) ==> sync_at(data@, i as int) && forall|j: int|
            0 <= j < i ==> !sync_at(data@, j),
        r is None ==> forall|j: int| !sync_at(data@, j),
{
    let n = data.len();
    if n == 0 {
        return None;
    }
    let mut i: usize = 0;
    while i + 1 < n
        invariant
            n == data@.len(),
            i < n,
            forall|j: int| 0 <= j < i ==> !sync_at(data@, j),
        decreases n - i,
    {
        let b0 = *vstd::slice::slice_index_get(data, i);
        let b1 = *vstd::slice::slice_index_get(data, i + 1);
        if b0 == 0xFF && (b1 & 0xE0) == 0xE0 {
            let tail = vstd::slice::slice_subrange(data, i, n);
            proof {
                assert(tail@ =~= data@.skip(i as int));
            }
            if FrameHeader::parse(tail).is_some() {
                return Some(i);
            }
        }
        i = i + 1;
    }
    None
}

} // verus!
