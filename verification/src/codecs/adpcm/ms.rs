use vstd::prelude::*;

use crate::container::wav::WavFormat;
use crate::io::endian;
use crate::io::error::IoResult;
use crate::model::frame::{Frame, FrameAudio, FrameData};
use crate::model::packet::Packet;
use crate::model::time::Timebase;
use crate::model::traits::{Decoder, Encoder};
use crate::transform::{clamp_sample, clamp_to_i16, get_sample, set_sample};

verus! {

/// The sixteen-entry delta adaptation table.
pub open spec fn ms_adapt_seq() -> Seq<int> {
    seq![230, 230, 230, 230, 307, 409, 512, 614, 768, 614, 512, 409, 307, 230, 230, 230]
}

/// The seven fixed predictor coefficient pairs.
pub open spec fn ms_coef1_seq() -> Seq<int> {
    seq![256, 512, 0, 192, 240, 460, 392]
}

pub open spec fn ms_coef2_seq() -> Seq<int> {
    seq![0, -256, 0, 64, 0, -208, -232]
}

fn ms_adapt_table() -> (r: Vec<u16>)
    ensures
        r@.len() == 16,
        forall|i: int| 0 <= i < 16 ==> r@[i] == ms_adapt_seq()[i],
{
    let t: Vec<u16> = vec![230, 230, 230, 230, 307, 409, 512, 614, 768, 614, 512, 409, 307, 230, 230, 230];
    t
}

fn ms_coef_pair(idx: usize) -> (r: (i16, i16))
    requires
        idx < 7,
    ensures
        r.0 == ms_coef1_seq()[idx as int],
        r.1 == ms_coef2_seq()[idx as int],
{
    if idx == 0 {
        (256, 0)
    } else if idx == 1 {
        (512, -256)
    } else if idx == 2 {
        (0, 0)
    } else if idx == 3 {
        (192, 64)
    } else if idx == 4 {
        (240, 0)
    } else if idx == 5 {
        (460, -208)
    } else {
        (392, -232)
    }
}

/// The per-channel history a block-structured stream carries.
#[derive(Debug, Clone, Copy, PartialEq, Eq, Structural)]
pub struct MsAdpcmChannelState {
    pub sample1: i16,
    pub sample2: i16,
    pub delta: i16,
    pub coef1: i16,
    pub coef2: i16,
}

/// The fixed-coefficient prediction every nibble starts from.
pub open spec fn ms_prediction(st: MsAdpcmChannelState) -> int {
    (st.sample1 * st.coef1 + st.sample2 * st.coef2) / 256
}

/// One signed nibble decoded: prediction plus the scaled nibble, clamped;
/// the history shifts and the delta adapts, floored at sixteen.
pub open spec fn ms_step(st: MsAdpcmChannelState, signed_nibble: int) -> (MsAdpcmChannelState, int) {
    let prediction = ms_prediction(st);
    let sample = clamp_sample(prediction + signed_nibble * st.delta);
    let adapt = ms_adapt_seq()[((signed_nibble + 16) % 16) as int];
    let new_delta0 = st.delta * adapt / 256;
    let new_delta = if new_delta0 < 16 {
        16
    } else if new_delta0 > 32767 {
        32767
    } else {
        new_delta0
    };
    (
        MsAdpcmChannelState {
            sample1: sample as i16,
            sample2: st.sample1,
            delta: new_delta as i16,
            coef1: st.coef1,
            coef2: st.coef2,
        },
        sample,
    )
}

impl MsAdpcmChannelState {
    pub fn fresh() -> (r: MsAdpcmChannelState)
        ensures
            r == (MsAdpcmChannelState {
                sample1: 0i16,
                sample2: 0i16,
                delta: 16i16,
                coef1: 256i16,
                coef2: 0i16,
            }),
    {
        MsAdpcmChannelState { sample1: 0, sample2: 0, delta: 16, coef1: 256, coef2: 0 }
    }

    /// The prediction, computed wide and truncated toward minus infinity by
    /// the arithmetic shift the format prescribes.
    fn predict(&self) -> (r: i64)
        ensures
            r == ms_prediction(*self),
            -0x1_0000_0000 <= r <= 0x1_0000_0000,
    {
        proof {
            assert(self.sample1 as int * self.coef1 as int <= 32768 * 32768 && self.sample1 as int
                * self.coef1 as int >= -(32768 * 32768)) by (nonlinear_arith)
                requires
                    -32768 <= self.sample1 <= 32767 && -32768 <= self.coef1 <= 32767,
            ;
            assert(self.sample2 as int * self.coef2 as int <= 32768 * 32768 && self.sample2 as int
                * self.coef2 as int >= -(32768 * 32768)) by (nonlinear_arith)
                requires
                    -32768 <= self.sample2 <= 32767 && -32768 <= self.coef2 <= 32767,
            ;
        }
        let num: i64 = self.sample1 as i64 * self.coef1 as i64 + self.sample2 as i64
            * self.coef2 as i64;
        if num >= 0 {
            (num as u64 / 256) as i64
        } else {
            let q = ((-num) as u64 + 255) / 256;
            proof {
                vstd::arithmetic::div_mod::lemma_div_is_ordered_by_denominator(
                    (-num) as int + 255,
                    1,
                    256,
                );
                lemma_neg_ceil_div((num) as int);
            }
            -(q as i64)
        }
    }

    /// Decodes one signed nibble, exactly as `ms_step` says.
    pub fn decode_sample(&mut self, signed_nibble: i8) -> (r: i16)
        requires
            -8 <= signed_nibble <= 7,
        ensures
            *final(self) == ms_step(*old(self), signed_nibble as int).0,
            r == ms_step(*old(self), signed_nibble as int).1,
    {
        let prediction = self.predict();
        proof {
            assert(signed_nibble as int * self.delta as int <= 8 * 32768 && signed_nibble as int
                * self.delta as int >= -(8 * 32768)) by (nonlinear_arith)
                requires
                    -8 <= signed_nibble <= 7 && -32768 <= self.delta <= 32767,
            ;
        }
        let scaled: i64 = signed_nibble as i64 * self.delta as i64;
        let sample = clamp_to_i16(prediction + scaled);
        let table = ms_adapt_table();
        let aidx: usize = ((signed_nibble as i32 + 16) % 16) as usize;
        let adapt: i64 = table[aidx] as i64;
        proof {
            assert(self.delta as int * adapt as int <= 32768 * 768 && self.delta as int
                * adapt as int >= -(32768 * 768)) by (nonlinear_arith)
                requires
                    -32768 <= self.delta <= 32767 && 0 <= adapt <= 768,
            ;
        }
        let scaled_delta: i64 = self.delta as i64 * adapt;
        let new_delta0: i64 = if scaled_delta >= 0 {
            (scaled_delta as u64 / 256) as i64
        } else {
            let q = ((-scaled_delta) as u64 + 255) / 256;
            proof {
                vstd::arithmetic::div_mod::lemma_div_is_ordered_by_denominator(
                    (-scaled_delta) as int + 255,
                    1,
                    256,
                );
                lemma_neg_ceil_div(scaled_delta as int);
            }
            -(q as i64)
        };
        let new_delta: i16 = if new_delta0 < 16 {
            16
        } else if new_delta0 > 32767 {
            32767
        } else {
            new_delta0 as i16
        };
        self.sample2 = self.sample1;
        self.sample1 = sample;
        self.delta = new_delta;
        sample
    }
}

/// Rust's integer division truncates toward zero; the format's arithmetic
/// shift rounds toward minus infinity, which on negatives is the negated
/// ceiling of the magnitude.
proof fn lemma_neg_ceil_div(num: int)
    requires
        num < 0,
    ensures
        num / 256 == -(((-num) + 255) / 256),
{
    let m = -num;
    let q = (m + 255) / 256;
    let r = (m + 255) % 256;
    vstd::arithmetic::div_mod::lemma_fundamental_div_mod(m + 255, 256);
    vstd::arithmetic::div_mod::lemma_mod_bound(m + 255, 256);
    vstd::arithmetic::div_mod::lemma_fundamental_div_mod_converse(num, 256, -q, 255 - r);
}

/// The channel state a block header seeds: the predictor index clamped to
/// six picks the coefficient pair, the initial delta is floored at
/// sixteen, and the two seed samples fill the history.
pub open spec fn ms_init_state(data: Seq<u8>, channels: int, ch: int) -> MsAdpcmChannelState {
    let p0 = data[ch] as int;
    let pidx = if p0 > 6 {
        6int
    } else {
        p0
    };
    let d0 = endian::le16_signed(data[channels + 2 * ch], data[channels + 2 * ch + 1]);
    MsAdpcmChannelState {
        sample1: endian::le16_signed(
            data[3 * channels + 2 * ch],
            data[3 * channels + 2 * ch + 1],
        ) as i16,
        sample2: endian::le16_signed(
            data[5 * channels + 2 * ch],
            data[5 * channels + 2 * ch + 1],
        ) as i16,
        delta: (if d0 < 16 {
            16int
        } else {
            d0
        }) as i16,
        coef1: ms_coef1_seq()[pidx] as i16,
        coef2: ms_coef2_seq()[pidx] as i16,
    }
}

/// The samples the payload nibbles decode to, two per byte, high nibble
/// first: in mono both nibbles step the one channel, in stereo the high
/// nibble steps the left channel and the low nibble the right.
pub open spec fn ms_payload_samples(
    data: Seq<u8>,
    pos: int,
    s0: MsAdpcmChannelState,
    s1: MsAdpcmChannelState,
    channels: int,
) -> Seq<i16>
    decreases data.len() - pos,
{
    if pos < 0 || pos >= data.len() {
        Seq::empty()
    } else {
        let b = data[pos] as int;
        let hi = if b / 16 < 8 {
            b / 16
        } else {
            b / 16 - 16
        };
        let lo = if b % 16 < 8 {
            b % 16
        } else {
            b % 16 - 16
        };
        if channels == 1 {
            let r1 = ms_step(s0, hi);
            let r2 = ms_step(r1.0, lo);
            seq![r1.1 as i16, r2.1 as i16] + ms_payload_samples(data, pos + 1, r2.0, s1, channels)
        } else {
            let r1 = ms_step(s0, hi);
            let r2 = ms_step(s1, lo);
            seq![r1.1 as i16, r2.1 as i16] + ms_payload_samples(data, pos + 1, r1.0, r2.0, channels)
        }
    }
}

/// A whole block decoded: the per-channel seed samples, oldest first in
/// stream order, then the payload samples.
pub open spec fn ms_block_samples(data: Seq<u8>, channels: int) -> Seq<i16> {
    if data.len() < 7 * channels {
        Seq::empty()
    } else {
        let s0 = ms_init_state(data, channels, 0);
        let sl = ms_init_state(data, channels, channels - 1);
        let hdr = if channels == 1 {
            seq![s0.sample2, s0.sample1]
        } else {
            seq![s0.sample2, sl.sample2, s0.sample1, sl.sample1]
        };
        hdr + ms_payload_samples(data, 7 * channels, s0, sl, channels)
    }
}

/// Block-structured: each packet is one block with per-channel predictor
/// choice, initial delta, and two seed samples, then payload nibbles.
pub struct MsAdpcmDecoder {
    pub format: WavFormat,
}

impl MsAdpcmDecoder {
    pub fn new(format: WavFormat, _block_size: usize) -> (r: MsAdpcmDecoder)
        ensures
            r.format == format,
    {
        MsAdpcmDecoder { format }
    }

    /// Reads a block's header and payload: a block shorter than its header
    /// gives no samples; otherwise the two seed samples per channel come
    /// first (oldest first) and every payload byte adds two samples, each
    /// the clamped prediction `ms_step` gives from the running state.
    #[verifier::loop_isolation(false)]
    #[verifier::rlimit(100)]
    pub fn decode_block(&self, data: &Vec<u8>, channels: usize) -> (r: Vec<i16>)
        requires
            1 <= channels <= 2,
        ensures
            r@ == ms_block_samples(data@, channels as int),
            data@.len() < 7 * channels ==> r@.len() == 0,
            data@.len() >= 7 * channels ==> r@.len() == 2 * channels + 2 * (data@.len() - 7
                * channels),
    {
        let n = data.len();
        if n < 7 * channels {
            let r: Vec<i16> = Vec::new();
            proof {
                assert(r@ =~= ms_block_samples(data@, channels as int));
            }
            return r;
        }
        let mut states: Vec<MsAdpcmChannelState> = Vec::new();
        let mut ch: usize = 0;
        while ch < channels
            invariant
                1 <= channels <= 2,
                states@.len() == ch,
                ch <= channels,
                n == data@.len() && n >= 7 * channels,
                forall|j: int|
                    0 <= j < ch ==> #[trigger] states@[j] == ms_init_state(
                        data@,
                        channels as int,
                        j,
                    ),
            decreases channels - ch,
        {
            let pidx_raw = data[ch];
            let pidx: usize = if pidx_raw > 6 {
                6
            } else {
                pidx_raw as usize
            };
            let (c1, c2) = ms_coef_pair(pidx);
            let d = endian::i16_from_le(data[channels + 2 * ch], data[channels + 2 * ch + 1]);
            let delta: i16 = if d < 16 {
                16
            } else {
                d
            };
            let s1 = endian::i16_from_le(
                data[3 * channels + 2 * ch],
                data[3 * channels + 2 * ch + 1],
            );
            let s2 = endian::i16_from_le(
                data[5 * channels + 2 * ch],
                data[5 * channels + 2 * ch + 1],
            );
            let st = MsAdpcmChannelState { sample1: s1, sample2: s2, delta, coef1: c1, coef2: c2 };
            proof {
                assert(st == ms_init_state(data@, channels as int, ch as int));
            }
            states.push(st);
            ch = ch + 1;
        }
        let mut pos: usize = 7 * channels;
        let mut output: Vec<i16> = Vec::new();
        let mut ch: usize = 0;
        while ch < channels
            invariant
                1 <= channels <= 2,
                states@.len() == channels,
                ch <= channels,
                output@.len() == ch,
                forall|j: int|
                    0 <= j < channels ==> #[trigger] states@[j] == ms_init_state(
                        data@,
                        channels as int,
                        j,
                    ),
                forall|j: int| 0 <= j < ch ==> output@[j] == states@[j].sample2,
            decreases channels - ch,
        {
            output.push(states[ch].sample2);
            ch = ch + 1;
        }
        let mut ch: usize = 0;
        while ch < channels
            invariant
                1 <= channels <= 2,
                states@.len() == channels,
                ch <= channels,
                output@.len() == channels + ch,
                forall|j: int|
                    0 <= j < channels ==> #[trigger] states@[j] == ms_init_state(
                        data@,
                        channels as int,
                        j,
                    ),
                forall|j: int| 0 <= j < channels ==> output@[j] == states@[j].sample2,
                forall|j: int| 0 <= j < ch ==> output@[channels + j] == states@[j].sample1,
            decreases channels - ch,
        {
            output.push(states[ch].sample1);
            ch = ch + 1;
        }
        let ghost target = ms_block_samples(data@, channels as int);
        let ghost anchor = states@[0];
        proof {
            assert(output@ + ms_payload_samples(
                data@,
                pos as int,
                states@[0],
                if channels == 2 {
                    states@[1]
                } else {
                    anchor
                },
                channels as int,
            ) =~= target);
        }
        while pos < n
            invariant
                1 <= channels <= 2,
                states@.len() == channels,
                pos >= 7 * channels,
                pos <= n,
                n == data@.len(),
                output@.len() == 2 * channels + 2 * (pos - 7 * channels),
                output@ + ms_payload_samples(
                    data@,
                    pos as int,
                    states@[0],
                    if channels == 2 {
                        states@[1]
                    } else {
                        anchor
                    },
                    channels as int,
                ) == target,
            decreases n - pos,
        {
            let ghost st0_pre = states@[0];
            let ghost st1_pre = if channels == 2 {
                states@[1]
            } else {
                anchor
            };
            let ghost pos0 = pos as int;
            let byte = data[pos];
            let high: i8 = sign_extend_nibble(byte / 16);
            let low: i8 = sign_extend_nibble(byte % 16);
            if channels == 1 {
                let mut st = states[0];
                output.push(st.decode_sample(high));
                output.push(st.decode_sample(low));
                states.set(0, st);
                proof {
                    let r1 = ms_step(st0_pre, high as int);
                    let r2 = ms_step(r1.0, low as int);
                    assert(ms_payload_samples(data@, pos0, st0_pre, st1_pre, 1) == seq![
                        r1.1 as i16,
                        r2.1 as i16,
                    ] + ms_payload_samples(data@, pos0 + 1, r2.0, st1_pre, 1));
                    assert(output@ + ms_payload_samples(data@, pos0 + 1, states@[0], st1_pre, 1)
                        =~= target);
                }
            } else {
                let mut st0 = states[0];
                output.push(st0.decode_sample(high));
                states.set(0, st0);
                let mut st1 = states[1];
                output.push(st1.decode_sample(low));
                states.set(1, st1);
                proof {
                    let r1 = ms_step(st0_pre, high as int);
                    let r2 = ms_step(st1_pre, low as int);
                    assert(ms_payload_samples(data@, pos0, st0_pre, st1_pre, 2) == seq![
                        r1.1 as i16,
                        r2.1 as i16,
                    ] + ms_payload_samples(data@, pos0 + 1, r1.0, r2.0, 2));
                    assert(output@ + ms_payload_samples(
                        data@,
                        pos0 + 1,
                        states@[0],
                        states@[1],
                        2,
                    ) =~= target);
                }
            }
            pos = pos + 1;
        }
        output
    }
}

/// The payload nibbles are two's-complement codes in `-8 .. 7`.
fn sign_extend_nibble(nibble: u8) -> (r: i8)
    requires
        nibble < 16,
    ensures
        r == (if nibble < 8 {
            nibble as int
        } else {
            nibble as int - 16
        }),
        -8 <= r <= 7,
{
    if nibble < 8 {
        nibble as i8
    } else {
        nibble as i8 - 16
    }
}

impl Decoder for MsAdpcmDecoder {
    /// One packet is one block; the frame carries the rebuilt samples with
    /// the packet's position.
    #[verifier::loop_isolation(false)]
    #[verifier::rlimit(100)]
    fn decode(&mut self, packet: Packet) -> (r: IoResult<Option<Frame>>)
        ensures
            *final(self) == *old(self),
            r matches Ok(f) && f matches Some(frame) && {
                &&& frame.is_audio()
                &&& frame.spec_audio().sample_rate == old(self).format.sample_rate
                &&& frame.spec_audio().channels == old(self).format.channels
                &&& frame.pts == packet.pts && frame.timebase == packet.timebase
                    && frame.stream_index == packet.stream_index
            },
    {
        let channels: usize = if self.format.channels == 2 {
            2
        } else {
            1
        };
        let samples = self.decode_block(&packet.data, channels);
        let ns = samples.len();
        if ns > usize::MAX / 2 {
            let audio = FrameAudio::new(
                Vec::new(),
                self.format.sample_rate,
                self.format.channels,
            );
            let frame = Frame::new_audio(audio, packet.timebase, packet.stream_index).with_pts(
                packet.pts,
            );
            return Ok(Some(frame));
        }
        let mut output: Vec<u8> = vec![0u8; 2 * ns];
        let mut i: usize = 0;
        while i < ns
            invariant
                ns == samples@.len(),
                ns <= usize::MAX / 2,
                output@.len() == 2 * ns,
                i <= ns,
            decreases ns - i,
        {
            set_sample(&mut output, i, samples[i]);
            i = i + 1;
        }
        let nb = ns / channels;
        let audio = FrameAudio::new(
            output,
            self.format.sample_rate,
            self.format.channels,
        ).with_nb_samples(nb);
        let frame = Frame::new_audio(audio, packet.timebase, packet.stream_index).with_pts(
            packet.pts,
        );
        Ok(Some(frame))
    }

    fn flush(&mut self) -> (r: IoResult<Option<Frame>>)
        ensures
            *final(self) == *old(self),
            r matches Ok(f) && f is None,
    {
        Ok(None)
    }
}

/// One sample's contribution to a predictor trial: the squared prediction
/// error, with the magnitude clamp and the saturating accumulation the
/// search uses so the sum stays within machine range.
pub open spec fn ms_err_step(err: int, s2: int, s1: int, s: int, k: int) -> int {
    let pred = (s1 * ms_coef1_seq()[k] + s2 * ms_coef2_seq()[k]) / 256;
    let diff = s - pred;
    let mag = if diff >= 0 {
        diff
    } else {
        -diff
    };
    let mag_c = if mag > 0xF_FFFF {
        0xF_FFFF as int
    } else {
        mag
    };
    let sq = mag_c * mag_c;
    let e1 = if err + sq > u64::MAX {
        u64::MAX as int
    } else {
        err + sq
    };
    if e1 > 0xFF_FFFF_FFFF * 10int {
        0xFF_FFFF_FFFF * 10int
    } else {
        e1
    }
}

/// The trial error of coefficient pair `k` over the samples before `i`,
/// the first two serving only as history.
pub open spec fn ms_trial_err(cs: Seq<i16>, k: int, i: int) -> int
    decreases i,
{
    if i <= 2 {
        0
    } else {
        ms_err_step(
            ms_trial_err(cs, k, i - 1),
            cs[i - 3] as int,
            cs[i - 2] as int,
            cs[i - 1] as int,
            k,
        )
    }
}

/// Block-structured: each frame becomes one block whose predictor is the
/// pair minimising the squared prediction error over the first samples.
pub struct MsAdpcmEncoder {
    pub timebase: Timebase,
    pub channels: u8,
}

impl MsAdpcmEncoder {
    pub fn new(timebase: Timebase, channels: u8, _block_size: usize) -> (r: MsAdpcmEncoder)
        ensures
            r.timebase == timebase,
            r.channels == channels,
    {
        MsAdpcmEncoder { timebase, channels }
    }

    /// The index of the coefficient pair with the least squared prediction
    /// error over the first ten samples; ties go to the smallest index.
    #[verifier::loop_isolation(false)]
    #[verifier::rlimit(100)]
    fn find_best_predictor(samples: &Vec<i16>) -> (r: usize)
        ensures
            r < 7,
            samples@.len() < 2 ==> r == 0,
            samples@.len() >= 2 ==> ({
                let limit = if samples@.len() < 10 {
                    samples@.len() as int
                } else {
                    10int
                };
                &&& forall|k: int|
                    0 <= k < 7 ==> ms_trial_err(samples@, r as int, limit) <= #[trigger] ms_trial_err(
                        samples@,
                        k,
                        limit,
                    )
                &&& forall|k: int|
                    0 <= k < r ==> #[trigger] ms_trial_err(samples@, k, limit) > ms_trial_err(
                        samples@,
                        r as int,
                        limit,
                    )
            }),
    {
        if samples.len() < 2 {
            return 0;
        }
        let mut best_idx: usize = 0;
        let mut best_err: u64 = u64::MAX;
        let mut idx: usize = 0;
        let limit: usize = if samples.len() < 10 {
            samples.len()
        } else {
            10
        };
        while idx < 7
            invariant
                best_idx < 7,
                idx <= 7,
                2 <= limit <= samples@.len() && limit <= 10,
                idx == 0 ==> best_idx == 0 && best_err == u64::MAX,
                idx > 0 ==> best_idx < idx && best_err == ms_trial_err(
                    samples@,
                    best_idx as int,
                    limit as int,
                ),
                forall|k: int|
                    0 <= k < idx ==> best_err <= #[trigger] ms_trial_err(
                        samples@,
                        k,
                        limit as int,
                    ),
                forall|k: int|
                    0 <= k < best_idx ==> #[trigger] ms_trial_err(samples@, k, limit as int)
                        > best_err,
            decreases 7 - idx,
        {
            let (c1, c2) = ms_coef_pair(idx);
            let mut err: u64 = 0;
            let mut i: usize = 2;
            while i < limit
                invariant
                    2 <= limit <= samples@.len(),
                    2 <= i <= limit,
                    err <= 0xFF_FFFF_FFFFu64 * 10,
                    c1 == ms_coef1_seq()[idx as int] && c2 == ms_coef2_seq()[idx as int],
                    err == ms_trial_err(samples@, idx as int, i as int),
                decreases limit - i,
            {
                let pred: i64 = {
                    proof {
                        assert(samples@[i - 1] as int * c1 as int <= 32768 * 32768
                            && samples@[i - 1] as int * c1 as int >= -(32768 * 32768))
                            by (nonlinear_arith)
                            requires
                                -32768 <= samples@[i - 1] <= 32767 && -32768 <= c1 <= 32767,
                        ;
                        assert(samples@[i - 2] as int * c2 as int <= 32768 * 32768
                            && samples@[i - 2] as int * c2 as int >= -(32768 * 32768))
                            by (nonlinear_arith)
                            requires
                                -32768 <= samples@[i - 2] <= 32767 && -32768 <= c2 <= 32767,
                        ;
                    }
                    let num: i64 = samples[i - 1] as i64 * c1 as i64 + samples[i - 2] as i64
                        * c2 as i64;
                    if num >= 0 {
                        (num as u64 / 256) as i64
                    } else {
                        proof {
                            vstd::arithmetic::div_mod::lemma_div_is_ordered_by_denominator(
                                (-num) as int + 255,
                                1,
                                256,
                            );
                            lemma_neg_ceil_div(num as int);
                        }
                        -((((-num) as u64 + 255) / 256) as i64)
                    }
                };
                let diff: i64 = samples[i] as i64 - pred;
                let mag: u64 = if diff >= 0 {
                    diff as u64
                } else {
                    (-diff) as u64
                };
                let mag_c: u64 = if mag > 0xF_FFFF {
                    0xF_FFFF
                } else {
                    mag
                };
                proof {
                    vstd::arithmetic::mul::lemma_mul_upper_bound(
                        mag_c as int,
                        0xF_FFFF,
                        mag_c as int,
                        0xF_FFFF,
                    );
                    vstd::arithmetic::mul::lemma_mul_nonnegative(mag_c as int, mag_c as int);
                }
                let sq: u64 = mag_c * mag_c;
                err = if err <= u64::MAX - sq {
                    err + sq
                } else {
                    u64::MAX
                };
                if err > 0xFF_FFFF_FFFFu64 * 10 {
                    err = 0xFF_FFFF_FFFFu64 * 10;
                }
                proof {
                    assert(err == ms_trial_err(samples@, idx as int, i + 1));
                }
                i = i + 1;
            }
            if err < best_err {
                best_err = err;
                best_idx = idx;
            }
            idx = idx + 1;
        }
        best_idx
    }

    /// Lays out one block: one predictor index per channel, then the
    /// per-channel initial deltas (seeded from the first two samples,
    /// floored at sixteen), the second seed samples, the first seed
    /// samples, each i16 little-endian, then the nibble payload, two
    /// nibbles per byte.
    #[verifier::loop_isolation(false)]
    #[verifier::rlimit(100)]
    pub fn encode_block(&self, samples: &Vec<i16>, channels: usize) -> (r: Vec<u8>)
        requires
            1 <= channels <= 2,
        ensures
            ({
                let n = samples@.len() as int;
                let pc = n / (channels as int);
                &&& (channels == 1 ==> r@.len() == (if n >= 2 {
                    7 + (n - 1) / 2
                } else {
                    7int
                }))
                &&& (channels == 2 ==> r@.len() == (if pc >= 2 {
                    14 + (pc - 2)
                } else {
                    14int
                }))
                &&& (forall|c: int| 0 <= c < channels ==> #[trigger] r@[c] < 7)
                &&& (pc >= 2 ==> (forall|c: int|
                    0 <= c < channels ==> ({
                        let s0 = samples@[c] as int;
                        let s1 = samples@[c + channels] as int;
                        let d = if s1 >= s0 {
                            s1 - s0
                        } else {
                            s0 - s1
                        };
                        let seeded = if d > 32767 {
                            32767int
                        } else if d < 16 {
                            16int
                        } else {
                            d
                        };
                        &&& endian::le16_signed(
                            r@[channels + 2 * c],
                            #[trigger] r@[channels + 2 * c + 1],
                        ) == seeded
                        &&& endian::le16_signed(r@[3 * channels + 2 * c], r@[3 * channels + 2 * c
                            + 1]) == s1
                        &&& endian::le16_signed(r@[5 * channels + 2 * c], r@[5 * channels + 2 * c
                            + 1]) == s0
                    })))
            }),
    {
        let total = samples.len();
        let per_channel = total / channels;
        let mut chans: Vec<Vec<i16>> = Vec::new();
        let mut ch: usize = 0;
        while ch < channels
            invariant
                1 <= channels <= 2,
                chans@.len() == ch,
                ch <= channels,
                total == samples@.len(),
                forall|j: int|
                    0 <= j < ch ==> (forall|t: int|
                        0 <= t < (#[trigger] chans@[j])@.len() ==> chans@[j]@[t] == samples@[j + t
                            * (channels as int)]),
                forall|j: int|
                    0 <= j < ch ==> total <= j + (#[trigger] chans@[j])@.len() * (channels as int)
                        < total + channels,
            decreases channels - ch,
        {
            let mut cs: Vec<i16> = Vec::new();
            let mut i: usize = ch;
            while i < total
                invariant
                    total == samples@.len(),
                    ch < channels <= 2,
                    i == ch + cs@.len() * channels || (i == total && total <= ch + cs@.len()
                        * channels < total + channels),
                    i >= total ==> total <= ch + cs@.len() * channels < total + channels,
                    forall|t: int|
                        0 <= t < cs@.len() ==> cs@[t] == samples@[ch + t * (channels as int)],
                decreases total + 2 - i,
            {
                cs.push(samples[i]);
                proof {
                    assert(cs@.len() * channels == (cs@.len() - 1) * channels + channels)
                        by (nonlinear_arith);
                }
                if total - i <= channels {
                    i = total;
                } else {
                    i = i + channels;
                }
            }
            chans.push(cs);
            ch = ch + 1;
        }
        proof {
            if per_channel >= 2 {
                assert forall|j: int| 0 <= j < channels implies (#[trigger] chans@[j])@.len()
                    >= 2 by {
                    assert(total >= 2 * channels);
                    assert(chans@[j]@.len() * (channels as int) > total - 1 - j);
                }
            }
        }
        let mut output: Vec<u8> = Vec::new();
        let mut preds: Vec<usize> = Vec::new();
        let mut ch: usize = 0;
        while ch < channels
            invariant
                1 <= channels <= 2,
                chans@.len() == channels,
                preds@.len() == ch,
                output@.len() == ch,
                ch <= channels,
                forall|j: int| 0 <= j < ch ==> #[trigger] preds@[j] < 7,
                forall|j: int| 0 <= j < ch ==> #[trigger] output@[j] == preds@[j] as u8,
            decreases channels - ch,
        {
            let p = Self::find_best_predictor(&chans[ch]);
            preds.push(p);
            output.push(p as u8);
            ch = ch + 1;
        }
        let mut states: Vec<MsAdpcmChannelState> = Vec::new();
        let mut ch: usize = 0;
        while ch < channels
            invariant
                1 <= channels <= 2,
                total == samples@.len(),
                chans@.len() == channels,
                preds@.len() == channels,
                states@.len() == ch,
                ch <= channels,
                per_channel == total as int / (channels as int),
                forall|j: int| 0 <= j < channels ==> #[trigger] preds@[j] < 7,
                forall|j: int|
                    0 <= j < channels ==> (forall|t: int|
                        0 <= t < (#[trigger] chans@[j])@.len() ==> chans@[j]@[t] == samples@[j + t
                            * (channels as int)]),
                per_channel >= 2 ==> forall|j: int|
                    0 <= j < channels ==> (#[trigger] chans@[j])@.len() >= 2,
                per_channel >= 2 ==> forall|j: int|
                    0 <= j < ch ==> ({
                        let s0 = samples@[j] as int;
                        let s1 = samples@[j + channels] as int;
                        let d = if s1 >= s0 {
                            s1 - s0
                        } else {
                            s0 - s1
                        };
                        let seeded = if d > 32767 {
                            32767int
                        } else if d < 16 {
                            16int
                        } else {
                            d
                        };
                        &&& (#[trigger] states@[j]).delta == seeded
                        &&& states@[j].sample1 as int == s1
                        &&& states@[j].sample2 as int == s0
                    }),
            decreases channels - ch,
        {
            let (c1, c2) = ms_coef_pair(preds[ch]);
            let mut st = MsAdpcmChannelState::fresh();
            st.coef1 = c1;
            st.coef2 = c2;
            let cs = &chans[ch];
            if cs.len() >= 2 {
                let s0 = cs[0];
                let s1 = cs[1];
                proof {
                    assert(cs@[0] == samples@[ch + 0 * (channels as int)]);
                    assert(cs@[1] == samples@[ch + 1 * (channels as int)]);
                }
                let diff: i64 = if s1 as i64 >= s0 as i64 {
                    s1 as i64 - s0 as i64
                } else {
                    s0 as i64 - s1 as i64
                };
                let seeded: i16 = if diff > 32767 {
                    32767
                } else if diff < 16 {
                    16
                } else {
                    diff as i16
                };
                st.delta = seeded;
                st.sample1 = s1;
                st.sample2 = s0;
            }
            states.push(st);
            ch = ch + 1;
        }
        let ghost sts = states@;
        let mut ch: usize = 0;
        while ch < channels
            invariant
                1 <= channels <= 2,
                states@.len() == channels,
                ch <= channels,
                output@.len() == channels + 2 * ch,
                forall|j: int| 0 <= j < channels ==> #[trigger] output@[j] < 7,
                forall|j: int|
                    0 <= j < ch ==> endian::le16_signed(
                        output@[channels + 2 * j],
                        #[trigger] output@[channels + 2 * j + 1],
                    ) == states@[j].delta,
            decreases channels - ch,
        {
            let (b0, b1) = endian::i16_to_le(states[ch].delta);
            output.push(b0);
            output.push(b1);
            proof {
                endian::lemma_le16_signed_roundtrip(states@[ch as int].delta);
            }
            ch = ch + 1;
        }
        let mut ch: usize = 0;
        while ch < channels
            invariant
                1 <= channels <= 2,
                states@.len() == channels,
                ch <= channels,
                output@.len() == 3 * channels + 2 * ch,
                forall|j: int| 0 <= j < channels ==> #[trigger] output@[j] < 7,
                forall|j: int|
                    0 <= j < channels ==> endian::le16_signed(
                        output@[channels + 2 * j],
                        #[trigger] output@[channels + 2 * j + 1],
                    ) == states@[j].delta,
                forall|j: int|
                    0 <= j < ch ==> endian::le16_signed(
                        output@[3 * channels + 2 * j],
                        #[trigger] output@[3 * channels + 2 * j + 1],
                    ) == states@[j].sample1,
            decreases channels - ch,
        {
            let (b0, b1) = endian::i16_to_le(states[ch].sample1);
            output.push(b0);
            output.push(b1);
            proof {
                endian::lemma_le16_signed_roundtrip(states@[ch as int].sample1);
            }
            ch = ch + 1;
        }
        let mut ch: usize = 0;
        while ch < channels
            invariant
                1 <= channels <= 2,
                states@.len() == channels,
                ch <= channels,
                output@.len() == 5 * channels + 2 * ch,
                forall|j: int| 0 <= j < channels ==> #[trigger] output@[j] < 7,
                forall|j: int|
                    0 <= j < channels ==> endian::le16_signed(
                        output@[channels + 2 * j],
                        #[trigger] output@[channels + 2 * j + 1],
                    ) == states@[j].delta,
                forall|j: int|
                    0 <= j < channels ==> endian::le16_signed(
                        output@[3 * channels + 2 * j],
                        #[trigger] output@[3 * channels + 2 * j + 1],
                    ) == states@[j].sample1,
                forall|j: int|
                    0 <= j < ch ==> endian::le16_signed(
                        output@[5 * channels + 2 * j],
                        #[trigger] output@[5 * channels + 2 * j + 1],
                    ) == states@[j].sample2,
            decreases channels - ch,
        {
            let (b0, b1) = endian::i16_to_le(states[ch].sample2);
            output.push(b0);
            output.push(b1);
            proof {
                endian::lemma_le16_signed_roundtrip(states@[ch as int].sample2);
            }
            ch = ch + 1;
        }
        let ghost hdr = output@;
        proof {
            if channels == 1 {
                assert(output@.take(7) =~= hdr);
            } else {
                assert(output@.take(14) =~= hdr);
            }
        }
        if channels == 1 {
            let cs = &chans[0];
            let mut i: usize = 2;
            while cs.len() >= 2 && i < cs.len() - 1
                invariant
                    channels == 1,
                    chans@.len() == 1,
                    states@.len() == 1,
                    i >= 2,
                    i % 2 == 0,
                    cs@.len() >= 2 ==> i <= cs@.len() + 1,
                    cs@.len() < 2 ==> i == 2,
                    output@.len() == 7 + (i - 2) / 2,
                    output@.take(7) == hdr,
                decreases cs@.len() + 2 - i,
            {
                let mut st = states[0];
                let n1 = encode_ms_nibble(&mut st, cs[i]);
                let n2 = encode_ms_nibble(&mut st, cs[i + 1]);
                states.set(0, st);
                output.push(n1 * 16 + n2);
                proof {
                    assert(output@.take(7) =~= hdr);
                }
                i = i + 2;
            }
            if i < cs.len() {
                let mut st = states[0];
                let n1 = encode_ms_nibble(&mut st, cs[i]);
                states.set(0, st);
                output.push(n1 * 16);
                proof {
                    assert(output@.take(7) =~= hdr);
                }
            }
            proof {
                let nn = cs@.len() as int;
                assert(nn == samples@.len());
                if nn >= 2 {
                    assert(nn - 1 <= i <= nn + 1);
                    if i == nn - 1 {
                        assert(output@.len() == 7 + (i - 2) / 2 + 1);
                        assert((nn - 3) / 2 + 1 == (nn - 1) / 2);
                        assert(output@.len() == 7 + (nn - 1) / 2);
                    } else if i == nn {
                        assert(output@.len() == 7 + (i - 2) / 2);
                        assert((nn - 2) / 2 == (nn - 1) / 2);
                        assert(output@.len() == 7 + (nn - 1) / 2);
                    } else {
                        assert(i == nn + 1);
                        assert(output@.len() == 7 + (i - 2) / 2);
                        assert((i - 2) / 2 == (nn - 1) / 2);
                        assert(output@.len() == 7 + (nn - 1) / 2);
                    }
                } else {
                    assert(output@.len() == 7);
                }
                assert(output@.len() == (if nn >= 2 {
                    7 + (nn - 1) / 2
                } else {
                    7int
                }));
            }
        } else {
            let c0 = &chans[0];
            let c1v = &chans[1];
            let mut i: usize = 2;
            while i < per_channel
                invariant
                    channels == 2,
                    chans@.len() == 2,
                    states@.len() == 2,
                    per_channel == samples@.len() as int / 2,
                    2 <= i,
                    per_channel >= 2 ==> i <= per_channel,
                    per_channel < 2 ==> i == 2,
                    output@.len() == 14 + (i - 2),
                    output@.take(14) == hdr,
                decreases per_channel - i,
            {
                let mut st0 = states[0];
                let nl = if i < c0.len() {
                    encode_ms_nibble(&mut st0, c0[i])
                } else {
                    encode_ms_nibble(&mut st0, 0)
                };
                states.set(0, st0);
                let mut st1 = states[1];
                let nr = if i < c1v.len() {
                    encode_ms_nibble(&mut st1, c1v[i])
                } else {
                    encode_ms_nibble(&mut st1, 0)
                };
                states.set(1, st1);
                output.push(nl * 16 + nr);
                proof {
                    assert(output@.take(14) =~= hdr);
                }
                i = i + 1;
            }
        }
        proof {
            let hl: int = if channels == 1 {
                7
            } else {
                14
            };
            assert forall|idx: int| 0 <= idx < hl implies output@[idx] == hdr[idx] by {
                assert(output@.take(hl)[idx] == output@[idx]);
            }
            assert forall|c: int| 0 <= c < channels implies #[trigger] output@[c] == hdr[c] && output@[
                channels + 2 * c
            ] == hdr[channels + 2 * c] && output@[channels + 2 * c + 1] == hdr[channels + 2 * c + 1]
                && output@[3 * channels + 2 * c] == hdr[3 * channels + 2 * c] && output@[3
                * channels + 2 * c + 1] == hdr[3 * channels + 2 * c + 1] && output@[5 * channels + 2
                * c] == hdr[5 * channels + 2 * c] && output@[5 * channels + 2 * c + 1] == hdr[5
                * channels + 2 * c + 1] by {
                assert(0 <= c < hl && channels + 2 * c + 1 < hl && 3 * channels + 2 * c + 1 < hl
                    && 5 * channels + 2 * c + 1 < hl);
            }
            if samples@.len() as int / (channels as int) >= 2 {
                assert forall|c: int| 0 <= c < channels implies ({
                    let s0 = samples@[c] as int;
                    let s1 = samples@[c + channels] as int;
                    let d = if s1 >= s0 {
                        s1 - s0
                    } else {
                        s0 - s1
                    };
                    let seeded = if d > 32767 {
                        32767int
                    } else if d < 16 {
                        16int
                    } else {
                        d
                    };
                    &&& endian::le16_signed(
                        output@[channels + 2 * c],
                        #[trigger] output@[channels + 2 * c + 1],
                    ) == seeded
                    &&& endian::le16_signed(output@[3 * channels + 2 * c], output@[3 * channels + 2
                        * c + 1]) == s1
                    &&& endian::le16_signed(output@[5 * channels + 2 * c], output@[5 * channels + 2
                        * c + 1]) == s0
                }) by {
                    assert(endian::le16_signed(hdr[channels + 2 * c], hdr[channels + 2 * c + 1])
                        == sts[c].delta);
                    assert(endian::le16_signed(hdr[3 * channels + 2 * c], hdr[3 * channels + 2 * c
                        + 1]) == sts[c].sample1);
                    assert(endian::le16_signed(hdr[5 * channels + 2 * c], hdr[5 * channels + 2 * c
                        + 1]) == sts[c].sample2);
                    assert(output@[channels + 2 * c] == hdr[channels + 2 * c] && output@[channels
                        + 2 * c + 1] == hdr[channels + 2 * c + 1]);
                    assert(output@[3 * channels + 2 * c] == hdr[3 * channels + 2 * c] && output@[3
                        * channels + 2 * c + 1] == hdr[3 * channels + 2 * c + 1]);
                    assert(output@[5 * channels + 2 * c] == hdr[5 * channels + 2 * c] && output@[5
                        * channels + 2 * c + 1] == hdr[5 * channels + 2 * c + 1]);
                }
            }
        }
        output
    }
}

/// One sample quantised against the channel state: the clamped error ratio
/// becomes the signed nibble, and the state advances exactly as the
/// decoder's `ms_step` will.
fn encode_ms_nibble(st: &mut MsAdpcmChannelState, sample: i16) -> (r: u8)
    ensures
        r < 16,
        *final(st) == ms_step(*old(st), (if r < 8 {
            r as int
        } else {
            r as int - 16
        })).0,
{
    let prediction = st.predict();
    let diff: i64 = sample as i64 - prediction;
    let delta: i64 = if st.delta == 0 {
        1
    } else {
        st.delta as i64
    };
    let q: i64 = {
        let mag: u64 = if diff >= 0 {
            diff as u64
        } else {
            (-diff) as u64
        };
        let dmag: u64 = if delta >= 0 {
            delta as u64
        } else {
            (-delta) as u64
        };
        let d: u64 = if dmag == 0 {
            1
        } else {
            dmag
        };
        let qm: u64 = mag / d;
        proof {
            vstd::arithmetic::div_mod::lemma_div_is_ordered_by_denominator(mag as int, 1, d as int);
        }
        if (diff >= 0) == (delta >= 0) {
            qm as i64
        } else {
            -(qm as i64)
        }
    };
    let nib: i64 = if q < -8 {
        -8
    } else if q > 7 {
        7
    } else {
        q
    };
    let code: u8 = if nib >= 0 {
        nib as u8
    } else {
        (nib + 16) as u8
    };
    let _ = st.decode_sample(nib as i8);
    code
}

impl Encoder for MsAdpcmEncoder {
    /// One frame becomes one block with the frame's position; the block's
    /// byte count follows from the frame's sample count alone.
    fn encode(&mut self, frame: Frame) -> (r: IoResult<Option<Packet>>)
        ensures
            *final(self) == *old(self),
            r matches Ok(p) && p matches Some(pkt) && pkt.pts == frame.pts && pkt.timebase == old(self).timebase && pkt.stream_index == frame.stream_index,
            ({
                let ns = (if frame.is_audio() {
                    frame.spec_audio().data@.len() as int
                } else {
                    frame.spec_video().data@.len() as int
                }) / 2;
                let chs: int = if old(self).channels == 2 {
                    2
                } else {
                    1
                };
                let pc = ns / chs;
                r matches Ok(p) && p matches Some(pkt) && (chs == 1 ==> pkt.data@.len() == (if ns
                    >= 2 {
                    7 + (ns - 1) / 2
                } else {
                    7int
                })) && (chs == 2 ==> pkt.data@.len() == (if pc >= 2 {
                    14 + (pc - 2)
                } else {
                    14int
                })) && (forall|c: int| 0 <= c < chs ==> #[trigger] pkt.data@[c] < 7)
            }),
    {
        let data = match &frame.data {
            FrameData::Audio(a) => &a.data,
            FrameData::Video(v) => &v.data,
        };
        let n = data.len() / 2;
        let mut samples: Vec<i16> = Vec::new();
        let mut i: usize = 0;
        #[verifier::loop_isolation(false)]
        while i < n
            invariant
                n == data@.len() as int / 2,
                samples@.len() == i,
                i <= n,
            decreases n - i,
        {
            samples.push(get_sample(data, i));
            i = i + 1;
        }
        let channels: usize = if self.channels == 2 {
            2
        } else {
            1
        };
        let output = self.encode_block(&samples, channels);
        let packet = Packet::new(output, frame.stream_index, self.timebase).with_pts(frame.pts);
        Ok(Some(packet))
    }

    fn flush(&mut self) -> (r: IoResult<Option<Packet>>)
        ensures
            *final(self) == *old(self),
            r matches Ok(p) && p is None,
    {
        Ok(None)
    }
}

} // verus!
