use vstd::prelude::*;

verus! {

/// Bit `i` of a byte stream, most significant bit of each byte first.
pub open spec fn bit_at(data: Seq<u8>, i: int) -> int
    recommends
        0 <= i < 8 * data.len(),
{
    ((data[i / 8] >> ((7 - (i % 8)) as u8)) & 1u8) as int
}

/// The value of `n` bits starting at bit `start`, most significant first.
pub open spec fn bits_val(data: Seq<u8>, start: int, n: int) -> int
    decreases n,
{
    if n <= 0 {
        0
    } else {
        bits_val(data, start, n - 1) * 2 + bit_at(data, start + n - 1)
    }
}

/// A bit string of length `n` is a value below `pow2(n)`.
pub proof fn lemma_bits_val_bound(data: Seq<u8>, start: int, n: int)
    requires
        n >= 0,
    ensures
        0 <= bits_val(data, start, n) < vstd::arithmetic::power2::pow2(n as nat),
    decreases n,
{
    if n == 0 {
        assert(vstd::arithmetic::power2::pow2(0) == 1) by {
            vstd::arithmetic::power2::lemma2_to64();
        }
    } else {
        lemma_bits_val_bound(data, start, n - 1);
        vstd::arithmetic::power2::lemma_pow2_unfold(n as nat);
        let b = bit_at(data, start + n - 1);
        assert(0 <= b <= 1) by {
            let byte = data[(start + n - 1) / 8];
            let sh = (7 - ((start + n - 1) % 8)) as u8;
            assert((byte >> sh) & 1u8 <= 1) by (bit_vector);
        }
    }
}

/// Bit values within the first four bytes agree wherever those bytes do.
pub proof fn lemma_bits_val_same_prefix(d1: Seq<u8>, d2: Seq<u8>, start: int, n: int)
    requires
        n >= 0,
        start >= 0,
        start + n <= 32,
        d1.len() >= 4,
        d2.len() >= 4,
        forall|i: int| 0 <= i < 4 ==> d1[i] == d2[i],
    ensures
        bits_val(d1, start, n) == bits_val(d2, start, n),
    decreases n,
{
    if n > 0 {
        lemma_bits_val_same_prefix(d1, d2, start, n - 1);
        assert((start + n - 1) / 8 < 4);
    }
}

/// Reads a byte stream bit by bit, most significant bit first, as the MP3
/// headers are laid out.
pub struct BitReader<'a> {
    pub data: &'a [u8],
    pub pos: usize,
}

impl<'a> BitReader<'a> {
    pub fn new(data: &'a [u8]) -> (r: BitReader<'a>)
        ensures
            r.data@ == data@,
            r.pos == 0,
    {
        BitReader { data, pos: 0 }
    }

    /// The next `n` bits as one value; `None` once the data runs out.
    #[verifier::loop_isolation(false)]
    pub fn read_bits(&mut self, n: u32) -> (r: Option<u32>)
        requires
            n <= 32,
        ensures
            final(self).data@ == old(self).data@,
            old(self).pos + n <= 8 * old(self).data@.len() && old(self).data@.len()
                <= usize::MAX / 8 ==> r is Some,
            r matches Some(v) ==> v == bits_val(old(self).data@, old(self).pos as int, n as int)
                && final(self).pos == old(self).pos + n && old(self).pos + n <= 8 * old(self).data@.len(),
            r is None ==> final(self).pos == old(self).pos,
    {
        let len = self.data.len();
        if len > usize::MAX / 8 {
            // a slice this large cannot be addressed bit by bit
            return None;
        }
        if n as usize > 8 * len || self.pos > 8 * len - n as usize {
            return None;
        }
        let mut v: u32 = 0;
        let mut i: usize = 0;
        while i < n as usize
            invariant
                i <= n <= 32,
                len == self.data@.len(),
                len <= usize::MAX / 8,
                self.pos + n <= 8 * len,
                self.pos == old(self).pos,
                self.data@ == old(self).data@,
                v == bits_val(self.data@, self.pos as int, i as int),
            decreases n - i,
        {
            let bit_index = self.pos + i;
            let byte = *vstd::slice::slice_index_get(self.data, bit_index / 8);
            let shift: u32 = 7 - (bit_index % 8) as u32;
            let bit: u32 = ((byte >> shift as u8) & 1) as u32;
            proof {
                lemma_bits_val_bound(self.data@, self.pos as int, i as int);
                vstd::arithmetic::power2::lemma2_to64();
                if i + 1 < 32 {
                    vstd::arithmetic::power2::lemma_pow2_strictly_increases((i + 1) as nat, 32);
                }
                vstd::arithmetic::power2::lemma_pow2_unfold((i + 1) as nat);
                let byte_g = self.data@[((self.pos + i) / 8) as int];
                let sh_g = (7 - ((self.pos + i) % 8)) as u8;
                assert((byte_g >> sh_g) & 1u8 <= 1) by (bit_vector);
                assert(bit_at(self.data@, self.pos + i as int) == ((byte_g >> sh_g) & 1u8));
            }
            v = v * 2 + bit;
            i = i + 1;
        }
        self.pos = self.pos + n as usize;
        Some(v)
    }
}

} // verus!
