pub mod decode;
pub mod encode;
pub mod ms;

pub use decode::AdpcmDecoder;
pub use encode::AdpcmEncoder;
pub use ms::{MsAdpcmDecoder, MsAdpcmEncoder};

use vstd::prelude::*;

use crate::transform::clamp_sample;

verus! {

/// The 89-entry step table of the interactive-multimedia ADPCM scheme.
pub open spec fn ima_step_seq() -> Seq<int> {
    seq![
        7, 8, 9, 10, 11, 12, 13, 14, 16, 17, 19, 21, 23, 25, 28, 31, 34, 37, 41, 45, 50, 55, 60,
        66, 73, 80, 88, 97, 107, 118, 130, 143, 157, 173, 190, 209, 230, 253, 279, 307, 337, 371,
        408, 449, 494, 544, 598, 658, 724, 796, 876, 963, 1060, 1166, 1282, 1411, 1552, 1707,
        1878, 2066, 2272, 2499, 2749, 3024, 3327, 3660, 4026, 4428, 4871, 5358, 5894, 6484, 7132,
        7845, 8630, 9493, 10442, 11487, 12635, 13899, 15289, 16818, 18500, 20350, 22385, 24623,
        27086, 29794, 32767,
    ]
}

pub open spec fn ima_step_of(idx: int) -> int {
    if 0 <= idx < 89 {
        ima_step_seq()[idx]
    } else {
        7
    }
}

/// The index adjustment per nibble: small codes step back, large codes
/// step forward.
pub open spec fn ima_index_adjust(nibble: int) -> int {
    let low = nibble % 8;
    if low <= 3 {
        -1
    } else if low == 4 {
        2
    } else if low == 5 {
        4
    } else if low == 6 {
        6
    } else {
        8
    }
}

/// The per-channel state every nibble reads and advances.
#[derive(Debug, Clone, Copy, PartialEq, Eq, Structural)]
pub struct AdpcmState {
    pub predictor: i32,
    pub step_index: u8,
}

/// One nibble decoded: the difference rebuilt from the step size, the
/// predictor moved and clamped, and the step index adjusted into range.
pub open spec fn ima_step(st: AdpcmState, nibble: u8) -> (AdpcmState, int) {
    let step = ima_step_of(st.step_index as int);
    let diff = step / 8 + (if nibble as int % 2 == 1 {
        step / 4
    } else {
        0
    }) + (if (nibble as int / 2) % 2 == 1 {
        step / 2
    } else {
        0
    }) + (if (nibble as int / 4) % 2 == 1 {
        step
    } else {
        0
    });
    let moved = if nibble as int / 8 == 1 {
        st.predictor - diff
    } else {
        st.predictor + diff
    };
    let clamped = clamp_sample(moved);
    let adjusted = st.step_index + ima_index_adjust(nibble as int);
    let idx = if adjusted < 0 {
        0
    } else if adjusted > 88 {
        88
    } else {
        adjusted
    };
    (AdpcmState { predictor: clamped as i32, step_index: idx as u8 }, clamped)
}

/// The step table as an indexable value.
pub fn ima_step_table() -> (r: Vec<u16>)
    ensures
        r@.len() == 89,
        forall|i: int| 0 <= i < 89 ==> r@[i] == ima_step_seq()[i],
{
    let t: Vec<u16> = vec![
        7, 8, 9, 10, 11, 12, 13, 14, 16, 17, 19, 21, 23, 25, 28, 31, 34, 37, 41, 45, 50, 55, 60,
        66, 73, 80, 88, 97, 107, 118, 130, 143, 157, 173, 190, 209, 230, 253, 279, 307, 337, 371,
        408, 449, 494, 544, 598, 658, 724, 796, 876, 963, 1060, 1166, 1282, 1411, 1552, 1707,
        1878, 2066, 2272, 2499, 2749, 3024, 3327, 3660, 4026, 4428, 4871, 5358, 5894, 6484, 7132,
        7845, 8630, 9493, 10442, 11487, 12635, 13899, 15289, 16818, 18500, 20350, 22385, 24623,
        27086, 29794, 32767,
    ];
    t
}

impl AdpcmState {
    pub fn new() -> (r: AdpcmState)
        ensures
            r.predictor == 0,
            r.step_index == 0,
    {
        AdpcmState { predictor: 0, step_index: 0 }
    }

    /// Advances the state by one nibble, exactly as `ima_step` says, and
    /// hands out the rebuilt sample.
    pub fn decode_sample(&mut self, nibble: u8) -> (r: i16)
        requires
            nibble < 16,
        ensures
            *final(self) == ima_step(*old(self), nibble).0,
            r == ima_step(*old(self), nibble).1,
            -32768 <= final(self).predictor <= 32767,
            final(self).step_index < 89,
    {
        let table = ima_step_table();
        let step: i32 = if self.step_index < 89 {
            table[self.step_index as usize] as i32
        } else {
            7
        };
        let mut diff: i32 = step / 8;
        if nibble % 2 == 1 {
            diff = diff + step / 4;
        }
        if (nibble / 2) % 2 == 1 {
            diff = diff + step / 2;
        }
        if (nibble / 4) % 2 == 1 {
            diff = diff + step;
        }
        let moved: i64 = if nibble / 8 == 1 {
            self.predictor as i64 - diff as i64
        } else {
            self.predictor as i64 + diff as i64
        };
        let clamped = crate::transform::clamp_to_i16(moved);
        let adjust: i32 = {
            let low = nibble % 8;
            if low <= 3 {
                -1
            } else if low == 4 {
                2
            } else if low == 5 {
                4
            } else if low == 6 {
                6
            } else {
                8
            }
        };
        let adjusted: i32 = self.step_index as i32 + adjust;
        let idx2: u8 = if adjusted < 0 {
            0
        } else if adjusted > 88 {
            88
        } else {
            adjusted as u8
        };
        self.predictor = clamped as i32;
        self.step_index = idx2;
        clamped
    }

    /// Chooses the nibble whose rebuilt sample lands nearest the target
    /// and advances the state exactly as the decoder will.
    #[verifier::loop_isolation(false)]
    pub fn encode_sample(&mut self, sample: i16) -> (r: u8)
        ensures
            r < 16,
            *final(self) == ima_step(*old(self), r).0,
            -32768 <= final(self).predictor <= 32767,
            final(self).step_index < 89,
    {
        let mut best_nibble: u8 = 0;
        let mut best_err: i64 = i64::MAX;
        let mut n: u8 = 0;
        while n < 16
            invariant
                best_nibble < 16,
                n <= 16,
                best_err >= 0,
            decreases 16 - n,
        {
            let mut trial = *self;
            let rebuilt = trial.decode_sample(n);
            let err: i64 = if sample as i64 >= rebuilt as i64 {
                sample as i64 - rebuilt as i64
            } else {
                rebuilt as i64 - sample as i64
            };
            if err < best_err {
                best_err = err;
                best_nibble = n;
            }
            n = n + 1;
        }
        let _ = self.decode_sample(best_nibble);
        best_nibble
    }
}

} // verus!
