use vstd::prelude::*;

use crate::codecs::mp3::bits::{bits_val, BitReader};
use crate::codecs::mp3::header::{FrameHeader, MpegVersion};

verus! {

/// The per-granule, per-channel side information fields, each within the
/// range its bit width allows.
#[derive(Debug, Clone, Copy)]
pub struct GranuleChannel {
    pub part2_3_length: u16,
    pub big_values: u16,
    pub global_gain: u8,
    pub scalefac_compress: u16,
    pub window_switching: bool,
    pub block_type: u8,
    pub mixed_block: bool,
    pub table_select: [u8; 3],
    pub subblock_gain: [u8; 3],
    pub region0_count: u8,
    pub region1_count: u8,
    pub preflag: bool,
    pub scalefac_scale: bool,
    pub count1table_select: bool,
}

#[derive(Debug, Clone, Copy)]
pub struct Granule {
    pub channels: [GranuleChannel; 2],
}

/// The frame-level side information: the main-data pointer, the private
/// bits, the scale-factor selection flags, and up to two granules.
#[derive(Debug, Clone, Copy)]
pub struct SideInfo {
    pub main_data_begin: u16,
    pub private_bits: u8,
    pub scfsi: [[bool; 4]; 2],
    pub granules: [Granule; 2],
}

/// Bits one granule-channel occupies: 59 under MPEG-1, 63 otherwise (the
/// wider scale-factor compression, no preflag).
pub open spec fn gc_total_bits(is_mpeg1: bool) -> int {
    if is_mpeg1 {
        59
    } else {
        63
    }
}

/// The window-switching flag of the granule-channel starting at bit `p`.
pub open spec fn gc_window_switching(data: Seq<u8>, p: int, is_mpeg1: bool) -> bool {
    bits_val(data, p + 29 + (if is_mpeg1 {
        4int
    } else {
        9int
    }), 1) == 1
}

/// A granule-channel at bit `p` carrying the reserved block type: window
/// switching set with block type zero, which parsing rejects.
pub open spec fn gc_reserved(data: Seq<u8>, p: int, is_mpeg1: bool) -> bool {
    let q = p + 30 + (if is_mpeg1 {
        4int
    } else {
        9int
    });
    gc_window_switching(data, p, is_mpeg1) && bits_val(data, q, 2) == 0
}

/// Every field of `gc` equals its bit range in the granule-channel record
/// starting at bit `p`, with the window-switching defaults where the
/// stream carries no region counts.
pub open spec fn gc_matches(gc: GranuleChannel, data: Seq<u8>, p: int, is_mpeg1: bool) -> bool {
    let sc = if is_mpeg1 {
        4int
    } else {
        9int
    };
    let q = p + 30 + sc;
    let pf: int = if is_mpeg1 {
        1
    } else {
        0
    };
    &&& gc.part2_3_length as int == bits_val(data, p, 12)
    &&& gc.big_values as int == bits_val(data, p + 12, 9)
    &&& gc.global_gain as int == bits_val(data, p + 21, 8)
    &&& gc.scalefac_compress as int == bits_val(data, p + 29, sc)
    &&& gc.window_switching == (bits_val(data, q - 1, 1) == 1)
    &&& (gc.window_switching ==> {
        &&& gc.block_type as int == bits_val(data, q, 2)
        &&& gc.block_type != 0
        &&& gc.mixed_block == (bits_val(data, q + 2, 1) == 1)
        &&& gc.table_select[0] as int == bits_val(data, q + 3, 5)
        &&& gc.table_select[1] as int == bits_val(data, q + 8, 5)
        &&& gc.table_select[2] == 0
        &&& gc.subblock_gain[0] as int == bits_val(data, q + 13, 3)
        &&& gc.subblock_gain[1] as int == bits_val(data, q + 16, 3)
        &&& gc.subblock_gain[2] as int == bits_val(data, q + 19, 3)
        &&& gc.region0_count == (if gc.block_type == 2 && !gc.mixed_block {
            8u8
        } else {
            7u8
        })
        &&& gc.region1_count as int == 20 - gc.region0_count
    })
    &&& (!gc.window_switching ==> {
        &&& gc.block_type == 0
        &&& gc.mixed_block == false
        &&& gc.table_select[0] as int == bits_val(data, q, 5)
        &&& gc.table_select[1] as int == bits_val(data, q + 5, 5)
        &&& gc.table_select[2] as int == bits_val(data, q + 10, 5)
        &&& gc.subblock_gain[0] == 0 && gc.subblock_gain[1] == 0 && gc.subblock_gain[2] == 0
        &&& gc.region0_count as int == bits_val(data, q + 15, 4)
        &&& gc.region1_count as int == bits_val(data, q + 19, 3)
    })
    &&& gc.preflag == (is_mpeg1 && bits_val(data, q + 22, 1) == 1)
    &&& gc.scalefac_scale == (bits_val(data, q + 22 + pf, 1) == 1)
    &&& gc.count1table_select == (bits_val(data, q + 23 + pf, 1) == 1)
}

/// Bits ahead of the granules: main-data pointer, private bits, and the
/// MPEG-1 scale-factor selection flags.
pub open spec fn si_side_bits(is_mpeg1: bool, mono: bool) -> int {
    if is_mpeg1 {
        if mono {
            18
        } else {
            20
        }
    } else {
        if mono {
            9
        } else {
            10
        }
    }
}

/// How many granule-channel records follow: two granules under MPEG-1, one
/// otherwise, each with one record per channel.
pub open spec fn si_granule_channels(is_mpeg1: bool, mono: bool) -> int {
    (if is_mpeg1 {
        2int
    } else {
        1int
    }) * (if mono {
        1int
    } else {
        2int
    })
}

fn empty_granule_channel() -> (r: GranuleChannel)
    ensures
        r.part2_3_length == 0 && r.big_values == 0 && r.global_gain == 0,
        r.scalefac_compress == 0 && !r.window_switching && r.block_type == 0 && !r.mixed_block,
        r.table_select[0] == 0 && r.table_select[1] == 0 && r.table_select[2] == 0,
        r.subblock_gain[0] == 0 && r.subblock_gain[1] == 0 && r.subblock_gain[2] == 0,
        r.region0_count == 0 && r.region1_count == 0,
        !r.preflag && !r.scalefac_scale && !r.count1table_select,
{
    GranuleChannel {
        part2_3_length: 0,
        big_values: 0,
        global_gain: 0,
        scalefac_compress: 0,
        window_switching: false,
        block_type: 0,
        mixed_block: false,
        table_select: [0, 0, 0],
        subblock_gain: [0, 0, 0],
        region0_count: 0,
        region1_count: 0,
        preflag: false,
        scalefac_scale: false,
        count1table_select: false,
    }
}

/// A bounded read: at most sixteen bits, so the value fits the fields.
fn read_small<'a>(reader: &mut BitReader<'a>, n: u32) -> (r: Option<u32>)
    requires
        n <= 16,
    ensures
        final(reader).data@ == old(reader).data@,
        old(reader).pos + n <= 8 * old(reader).data@.len() && old(reader).data@.len()
            <= usize::MAX / 8 ==> r is Some,
        r matches Some(v) ==> v == bits_val(old(reader).data@, old(reader).pos as int, n as int)
            && v < 65536 && (v as nat) < vstd::arithmetic::power2::pow2(n as nat)
            && final(reader).pos == old(reader).pos + n
            && old(reader).pos + n <= 8 * old(reader).data@.len(),
        r is None ==> final(reader).pos == old(reader).pos,
{
    let r = reader.read_bits(n);
    proof {
        if r is Some {
            crate::codecs::mp3::bits::lemma_bits_val_bound(
                old(reader).data@,
                old(reader).pos as int,
                n as int,
            );
            vstd::arithmetic::power2::lemma2_to64();
            if n < 16 {
                vstd::arithmetic::power2::lemma_pow2_strictly_increases(n as nat, 16);
            }
        }
    }
    r
}

/// One channel's worth of granule fields, each equal to its bit range; the
/// region counts come either from the stream or from the window-switching
/// defaults. `None` exactly when the bits run out or the reserved block
/// type appears.
fn parse_granule_channel<'a>(reader: &mut BitReader<'a>, is_mpeg1: bool) -> (r: Option<
    GranuleChannel,
>)
    ensures
        final(reader).data@ == old(reader).data@,
        ({
            let data = old(reader).data@;
            let p = old(reader).pos as int;
            &&& (data.len() <= usize::MAX / 8 ==> (r is Some <==> p + gc_total_bits(is_mpeg1) <= 8
                * data.len() && !gc_reserved(data, p, is_mpeg1)))
            &&& (r matches Some(gc) ==> final(reader).pos == p + gc_total_bits(is_mpeg1)
                && gc_matches(gc, data, p, is_mpeg1) && gc.block_type < 4 && gc.region0_count <= 15
                && gc.region1_count <= 20)
        }),
{
    proof {
        vstd::arithmetic::power2::lemma2_to64();
    }
    let part2_3_length = match read_small(reader, 12) {
        Some(v) => v as u16,
        None => {
            return None;
        },
    };
    let big_values = match read_small(reader, 9) {
        Some(v) => v as u16,
        None => {
            return None;
        },
    };
    let global_gain = match read_small(reader, 8) {
        Some(v) => v as u8,
        None => {
            return None;
        },
    };
    let scalefac_compress = match read_small(reader, if is_mpeg1 {
        4
    } else {
        9
    }) {
        Some(v) => v as u16,
        None => {
            return None;
        },
    };
    let window_switching = match read_small(reader, 1) {
        Some(v) => v == 1,
        None => {
            return None;
        },
    };
    let mut gc = empty_granule_channel();
    gc.part2_3_length = part2_3_length;
    gc.big_values = big_values;
    gc.global_gain = global_gain;
    gc.scalefac_compress = scalefac_compress;
    gc.window_switching = window_switching;
    if window_switching {
        let block_type = match read_small(reader, 2) {
            Some(v) => v as u8,
            None => {
                return None;
            },
        };
        let mixed_block = match read_small(reader, 1) {
            Some(v) => v == 1,
            None => {
                return None;
            },
        };
        let t0 = match read_small(reader, 5) {
            Some(v) => v as u8,
            None => {
                return None;
            },
        };
        let t1 = match read_small(reader, 5) {
            Some(v) => v as u8,
            None => {
                return None;
            },
        };
        let g0 = match read_small(reader, 3) {
            Some(v) => v as u8,
            None => {
                return None;
            },
        };
        let g1 = match read_small(reader, 3) {
            Some(v) => v as u8,
            None => {
                return None;
            },
        };
        let g2 = match read_small(reader, 3) {
            Some(v) => v as u8,
            None => {
                return None;
            },
        };
        if block_type == 0 {
            return None;
        }
        gc.block_type = block_type;
        gc.mixed_block = mixed_block;
        gc.table_select = [t0, t1, 0];
        gc.subblock_gain = [g0, g1, g2];
        gc.region0_count = if block_type == 2 && !mixed_block {
            8
        } else {
            7
        };
        gc.region1_count = 20 - gc.region0_count;
    } else {
        let t0 = match read_small(reader, 5) {
            Some(v) => v as u8,
            None => {
                return None;
            },
        };
        let t1 = match read_small(reader, 5) {
            Some(v) => v as u8,
            None => {
                return None;
            },
        };
        let t2 = match read_small(reader, 5) {
            Some(v) => v as u8,
            None => {
                return None;
            },
        };
        let r0 = match read_small(reader, 4) {
            Some(v) => v as u8,
            None => {
                return None;
            },
        };
        let r1 = match read_small(reader, 3) {
            Some(v) => v as u8,
            None => {
                return None;
            },
        };
        gc.block_type = 0;
        gc.mixed_block = false;
        gc.table_select = [t0, t1, t2];
        gc.region0_count = r0;
        gc.region1_count = r1;
    }
    if is_mpeg1 {
        let preflag = match read_small(reader, 1) {
            Some(v) => v == 1,
            None => {
                return None;
            },
        };
        gc.preflag = preflag;
    }
    let scalefac_scale = match read_small(reader, 1) {
        Some(v) => v == 1,
        None => {
            return None;
        },
    };
    gc.scalefac_scale = scalefac_scale;
    let count1table_select = match read_small(reader, 1) {
        Some(v) => v == 1,
        None => {
            return None;
        },
    };
    gc.count1table_select = count1table_select;
    Some(gc)
}


/// One channel's four scale-factor selection flags, bit by bit.
fn parse_scfsi_row<'a>(reader: &mut BitReader<'a>) -> (r: Option<[bool; 4]>)
    ensures
        final(reader).data@ == old(reader).data@,
        old(reader).pos + 4 <= 8 * old(reader).data@.len() && old(reader).data@.len()
            <= usize::MAX / 8 ==> r is Some,
        r matches Some(row) ==> final(reader).pos == old(reader).pos + 4 && old(reader).pos + 4
            <= 8 * old(reader).data@.len() && (forall|b: int|
            0 <= b < 4 ==> row[b] == (bits_val(
                old(reader).data@,
                old(reader).pos + b,
                1,
            ) == 1)),
{
    let b0 = match read_small(reader, 1) {
        Some(v) => v == 1,
        None => {
            return None;
        },
    };
    let b1 = match read_small(reader, 1) {
        Some(v) => v == 1,
        None => {
            return None;
        },
    };
    let b2 = match read_small(reader, 1) {
        Some(v) => v == 1,
        None => {
            return None;
        },
    };
    let b3 = match read_small(reader, 1) {
        Some(v) => v == 1,
        None => {
            return None;
        },
    };
    Some([b0, b1, b2, b3])
}


/// All the frame's granule-channel records in stream order: one per
/// channel under MPEG-2, two per channel under MPEG-1; channels and
/// granules absent from the stream come back empty.
fn parse_granules<'a>(reader: &mut BitReader<'a>, is_mpeg1: bool, mono: bool) -> (r: Option<
    (GranuleChannel, GranuleChannel, GranuleChannel, GranuleChannel),
>)
    ensures
        final(reader).data@ == old(reader).data@,
        ({
            let data = old(reader).data@;
            let p = old(reader).pos as int;
            let gct = gc_total_bits(is_mpeg1);
            let ngc = si_granule_channels(is_mpeg1, mono);
            &&& (data.len() <= usize::MAX / 8 ==> (r is Some <==> p + ngc * gct <= 8 * data.len()
                && (forall|k: int|
                    0 <= k < ngc ==> !gc_reserved(data, p + #[trigger] (k * gct), is_mpeg1))))
            &&& (r matches Some(t) ==> {
                &&& final(reader).pos == p + ngc * gct
                &&& gc_matches(t.0, data, p, is_mpeg1)
                &&& (!mono ==> gc_matches(t.1, data, p + gct, is_mpeg1))
                &&& (is_mpeg1 && mono ==> gc_matches(t.2, data, p + gct, is_mpeg1))
                &&& (is_mpeg1 && !mono ==> gc_matches(t.2, data, p + 2 * gct, is_mpeg1)
                    && gc_matches(t.3, data, p + 3 * gct, is_mpeg1))
            })
        }),
{
    let ghost data = old(reader).data@;
    let ghost base = old(reader).pos as int;
    let ghost gct = gc_total_bits(is_mpeg1);
    let ghost ngc = si_granule_channels(is_mpeg1, mono);
    proof {
        assert(0int * gct == 0 && 1int * gct == gct && 2int * gct == 2 * gct && 3int * gct == 3
            * gct);
        if is_mpeg1 {
            if mono {
                assert(ngc * gct == 118);
            } else {
                assert(ngc * gct == 236);
            }
        } else {
            if mono {
                assert(ngc * gct == 63);
            } else {
                assert(ngc * gct == 126);
            }
        }
    }
    let g0c0 = match parse_granule_channel(reader, is_mpeg1) {
        Some(gc) => gc,
        None => {
            return None;
        },
    };
    let g0c1 = if !mono {
        match parse_granule_channel(reader, is_mpeg1) {
            Some(gc) => gc,
            None => {
                proof {
                    assert(base + 1 * gct == base + gct);
                }
                return None;
            },
        }
    } else {
        empty_granule_channel()
    };
    let (g1c0, g1c1) = if is_mpeg1 {
        let a = match parse_granule_channel(reader, is_mpeg1) {
            Some(gc) => gc,
            None => {
                proof {
                    assert(base + 1 * gct == base + gct);
                    assert(base + 2 * gct == base + gct + gct);
                }
                return None;
            },
        };
        let b = if !mono {
            match parse_granule_channel(reader, is_mpeg1) {
                Some(gc) => gc,
                None => {
                    proof {
                        assert(base + 3 * gct == base + gct + gct + gct);
                    }
                    return None;
                },
            }
        } else {
            empty_granule_channel()
        };
        (a, b)
    } else {
        (empty_granule_channel(), empty_granule_channel())
    };
    proof {
        if data.len() <= usize::MAX / 8 {
            assert forall|k: int| 0 <= k < ngc implies !gc_reserved(
                data,
                base + #[trigger] (k * gct),
                is_mpeg1,
            ) by {
                if k == 0 {
                    assert(base + 0 * gct == base);
                } else if k == 1 {
                    assert(base + 1 * gct == base + gct);
                } else if k == 2 {
                    assert(base + 2 * gct == base + gct + gct);
                } else {
                    assert(base + 3 * gct == base + gct + gct + gct);
                }
            }
        }
    }
    Some((g0c0, g0c1, g1c0, g1c1))
}

impl SideInfo {
    /// Reads the side information that follows a frame header: the
    /// main-data pointer and private bits, the scale-factor selection for
    /// each channel, and one granule per channel (two granules under
    /// MPEG-1). `None` exactly when the bits run out or a reserved block
    /// type appears; on success every field equals its bit range.
    #[verifier::rlimit(100)]
    pub fn parse<'a>(reader: &mut BitReader<'a>, header: &FrameHeader) -> (r: Option<SideInfo>)
        ensures
            final(reader).data@ == old(reader).data@,
            ({
                let data = old(reader).data@;
                let p = old(reader).pos as int;
                let is_mpeg1 = header.version is Mpeg1;
                let mono = header.channels == 1;
                let mbits = if is_mpeg1 {
                    9int
                } else {
                    8int
                };
                let pbits = if is_mpeg1 {
                    if mono {
                        5int
                    } else {
                        3int
                    }
                } else {
                    if mono {
                        1int
                    } else {
                        2int
                    }
                };
                let base = p + si_side_bits(is_mpeg1, mono);
                let gct = gc_total_bits(is_mpeg1);
                let ngc = si_granule_channels(is_mpeg1, mono);
                &&& (data.len() <= usize::MAX / 8 ==> (r is Some <==> p + si_side_bits(
                    is_mpeg1,
                    mono,
                ) + ngc * gct <= 8 * data.len() && (forall|k: int|
                    0 <= k < ngc ==> !gc_reserved(data, base + #[trigger] (k * gct), is_mpeg1))))
                &&& (r matches Some(si) ==> {
                    &&& final(reader).pos == p + si_side_bits(is_mpeg1, mono) + ngc * gct
                    &&& si.main_data_begin as int == bits_val(data, p, mbits)
                    &&& si.main_data_begin < 512
                    &&& si.private_bits as int == bits_val(data, p + mbits, pbits)
                    &&& (is_mpeg1 ==> {
                        &&& si.scfsi[0][0] == (bits_val(data, p + 9 + pbits, 1) == 1)
                        &&& si.scfsi[0][1] == (bits_val(data, p + 9 + pbits + 1, 1) == 1)
                        &&& si.scfsi[0][2] == (bits_val(data, p + 9 + pbits + 2, 1) == 1)
                        &&& si.scfsi[0][3] == (bits_val(data, p + 9 + pbits + 3, 1) == 1)
                    })
                    &&& (is_mpeg1 && !mono ==> {
                        &&& si.scfsi[1][0] == (bits_val(data, p + 9 + pbits + 4, 1) == 1)
                        &&& si.scfsi[1][1] == (bits_val(data, p + 9 + pbits + 5, 1) == 1)
                        &&& si.scfsi[1][2] == (bits_val(data, p + 9 + pbits + 6, 1) == 1)
                        &&& si.scfsi[1][3] == (bits_val(data, p + 9 + pbits + 7, 1) == 1)
                    })
                    &&& gc_matches(si.granules[0].channels[0], data, base, is_mpeg1)
                    &&& (!mono ==> gc_matches(si.granules[0].channels[1], data, base + gct, is_mpeg1))
                    &&& (is_mpeg1 && mono ==> gc_matches(
                        si.granules[1].channels[0],
                        data,
                        base + gct,
                        is_mpeg1,
                    ))
                    &&& (is_mpeg1 && !mono ==> gc_matches(
                        si.granules[1].channels[0],
                        data,
                        base + 2 * gct,
                        is_mpeg1,
                    ) && gc_matches(si.granules[1].channels[1], data, base + 3 * gct, is_mpeg1))
                })
            }),
    {
        proof {
            vstd::arithmetic::power2::lemma2_to64();
        }
        let mono = header.channels == 1;
        let is_mpeg1 = match header.version {
            MpegVersion::Mpeg1 => true,
            _ => false,
        };
        let ghost data = old(reader).data@;
        let ghost p = old(reader).pos as int;
        let ghost gct = gc_total_bits(is_mpeg1);
        let ghost ngc = si_granule_channels(is_mpeg1, mono);
        let ghost base = p + si_side_bits(is_mpeg1, mono);
        proof {
            if is_mpeg1 {
                if mono {
                    assert(ngc * gct == 118);
                } else {
                    assert(ngc * gct == 236);
                }
            } else {
                if mono {
                    assert(ngc * gct == 63);
                } else {
                    assert(ngc * gct == 126);
                }
            }
            assert(0int * gct == 0 && 1int * gct == gct && 2int * gct == 2 * gct && 3int * gct == 3
                * gct);
        }
        let main_data_begin: u16 = if is_mpeg1 {
            match read_small(reader, 9) {
                Some(v) => v as u16,
                None => {
                    return None;
                },
            }
        } else {
            match read_small(reader, 8) {
                Some(v) => v as u16,
                None => {
                    return None;
                },
            }
        };
        let private_bits: u8 = {
            let nbits: u32 = if is_mpeg1 {
                if mono {
                    5
                } else {
                    3
                }
            } else {
                if mono {
                    1
                } else {
                    2
                }
            };
            match read_small(reader, nbits) {
                Some(v) => (v % 256) as u8,
                None => {
                    return None;
                },
            }
        };
        let mut scfsi_row0 = [false, false, false, false];
        let mut scfsi_row1 = [false, false, false, false];
        if is_mpeg1 {
            scfsi_row0 = match parse_scfsi_row(reader) {
                Some(row) => row,
                None => {
                    return None;
                },
            };
            if !mono {
                scfsi_row1 = match parse_scfsi_row(reader) {
                    Some(row) => row,
                    None => {
                        return None;
                    },
                };
            }
        }
        let (g0c0, g0c1, g1c0, g1c1) = match parse_granules(reader, is_mpeg1, mono) {
            Some(t) => t,
            None => {
                return None;
            },
        };
        Some(
            SideInfo {
                main_data_begin,
                private_bits,
                scfsi: [scfsi_row0, scfsi_row1],
                granules: [
                    Granule { channels: [g0c0, g0c1] },
                    Granule { channels: [g1c0, g1c1] },
                ],
            },
        )
    }
}

} // verus!
