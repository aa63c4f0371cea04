pub mod channel_mixer;
pub mod fade;
pub mod gain;
pub mod normalize;
pub mod resample;
pub mod video;

pub use channel_mixer::{ChannelLayout, ChannelMixer};
pub use fade::{Crossfade, FadeIn, FadeOut};
pub use gain::Gain;
pub use normalize::Normalize;
pub use resample::Resample;

use vstd::prelude::*;

use crate::codecs::sample_at;
use crate::io::endian;
use crate::io::error::IoResult;
use crate::model::frame::Frame;
use crate::model::traits::Transform;

verus! {

/// A sample value forced into 16-bit range.
pub open spec fn clamp_sample(v: int) -> int {
    if v < -32768 {
        -32768
    } else if v > 32767 {
        32767
    } else {
        v
    }
}

/// Division truncating toward zero, as the sample arithmetic uses it.
pub open spec fn tdiv(a: int, b: int) -> int
    recommends
        b > 0,
{
    if a >= 0 {
        a / b
    } else {
        -((-a) / b)
    }
}

/// The sample at index `i` of an interleaved 16-bit buffer.
pub fn get_sample(data: &Vec<u8>, i: usize) -> (r: i16)
    requires
        2 * i + 1 < data@.len(),
    ensures
        r == sample_at(data@, i as int),
{
    let n = data.len();
    endian::i16_from_le(data[2 * i], data[2 * i + 1])
}

/// Stores sample `i`, leaving every other byte alone.
pub fn set_sample(data: &mut Vec<u8>, i: usize, v: i16)
    requires
        2 * i + 1 < old(data)@.len(),
    ensures
        final(data)@.len() == old(data)@.len(),
        sample_at(final(data)@, i as int) == v,
        seq![final(data)@[2 * i as int], final(data)@[2 * i as int + 1]]
            == endian::le16_signed_bytes(v),
        forall|j: int|
            0 <= j < old(data)@.len() && j != 2 * i && j != 2 * i + 1 ==> final(data)@[j] == old(data)@[j],
{
    let n = data.len();
    let (b0, b1) = endian::i16_to_le(v);
    data.set(2 * i, b0);
    data.set(2 * i + 1, b1);
    proof {
        assert(seq![data@[2 * i as int], data@[2 * i as int + 1]] =~= endian::le16_signed_bytes(
            v,
        ));
    }
}

pub fn clamp_to_i16(v: i64) -> (r: i16)
    ensures
        r == clamp_sample(v as int),
{
    if v < -32768 {
        -32768
    } else if v > 32767 {
        32767
    } else {
        v as i16
    }
}

/// `a * num / den` truncated toward zero, computed on magnitudes.
pub fn scale_trunc(a: i64, num: i64, den: u32) -> (r: i64)
    requires
        den > 0,
        -0x2_0000 <= a <= 0x2_0000,
        -0x1_0000_0000 <= num <= 0x1_0000_0000,
    ensures
        r == tdiv(a * num, den as int),
{
    proof {
        assert(-0x2_0000_0000_0000 <= a * num <= 0x2_0000_0000_0000) by (nonlinear_arith)
            requires
                -0x2_0000 <= a <= 0x2_0000 && -0x1_0000_0000 <= num <= 0x1_0000_0000,
        ;
    }
    let prod: i64 = a * num;
    if prod >= 0 {
        proof {
            vstd::arithmetic::div_mod::lemma_div_is_ordered_by_denominator(
                prod as int,
                1,
                den as int,
            );
        }
        let q: u64 = prod as u64 / den as u64;
        q as i64
    } else {
        let mag: u64 = (-prod) as u64;
        proof {
            vstd::arithmetic::div_mod::lemma_div_is_ordered_by_denominator(
                mag as int,
                1,
                den as int,
            );
        }
        let q: u64 = mag / den as u64;
        -(q as i64)
    }
}

/// The transforms this crate ships, as one value the chain can hold.
pub enum TransformKind {
    Gain(Gain),
    Normalize(Normalize),
    Mixer(ChannelMixer),
    FadeIn(FadeIn),
    FadeOut(FadeOut),
    Crossfade(Crossfade),
    Resample(Resample),
}

impl Transform for TransformKind {
    fn apply(&mut self, frame: Frame) -> IoResult<Frame> {
        match self {
            TransformKind::Gain(t) => t.apply(frame),
            TransformKind::Normalize(t) => t.apply(frame),
            TransformKind::Mixer(t) => t.apply(frame),
            TransformKind::FadeIn(t) => t.apply(frame),
            TransformKind::FadeOut(t) => t.apply(frame),
            TransformKind::Crossfade(t) => t.apply(frame),
            TransformKind::Resample(t) => t.apply(frame),
        }
    }

    fn name(&self) -> &'static str {
        match self {
            TransformKind::Gain(t) => t.name(),
            TransformKind::Normalize(t) => t.name(),
            TransformKind::Mixer(t) => t.name(),
            TransformKind::FadeIn(t) => t.name(),
            TransformKind::FadeOut(t) => t.name(),
            TransformKind::Crossfade(t) => t.name(),
            TransformKind::Resample(t) => t.name(),
        }
    }
}

/// An ordered sequence of transforms; `apply` folds the frame through the
/// list, stopping at the first failure.
pub struct TransformChain {
    pub transforms: Vec<TransformKind>,
}

impl TransformChain {
    pub fn new() -> (r: TransformChain)
        ensures
            r.transforms@.len() == 0,
    {
        TransformChain { transforms: Vec::new() }
    }

    pub fn add(&mut self, t: TransformKind)
        ensures
            final(self).transforms@.len() == old(self).transforms@.len() + 1,
    {
        self.transforms.push(t);
    }

    pub fn is_empty(&self) -> (r: bool)
        ensures
            r == (self.transforms@.len() == 0),
    {
        self.transforms.is_empty()
    }

    pub fn len(&self) -> (r: usize)
        ensures
            r == self.transforms@.len(),
    {
        self.transforms.len()
    }

    #[verifier::loop_isolation(false)]
    pub fn apply(&mut self, frame: Frame) -> (r: IoResult<Frame>) {
        let mut current = frame;
        let mut rest: Vec<TransformKind> = Vec::new();
        core::mem::swap(&mut rest, &mut self.transforms);
        while rest.len() > 0
            decreases rest@.len(),
        {
            let mut t = rest.remove(0);
            match t.apply(current) {
                Ok(f) => {
                    current = f;
                    self.transforms.push(t);
                },
                Err(e) => {
                    self.transforms.push(t);
                    self.transforms.append(&mut rest);
                    return Err(e);
                },
            }
        }
        Ok(current)
    }
}

} // verus!
