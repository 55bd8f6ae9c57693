//! Small helpers shared across the components: zero-filled buffers and
//! 16-bit word assembly.

use vstd::prelude::*;

verus! {

/// A vector of `n` zero bytes.
pub fn zero_vec(n: usize) -> (r: Vec<u8>)
    ensures
        r@.len() == n,
        forall|i: int| 0 <= i < n ==> r@[i] == 0u8,
{
    let mut v: Vec<u8> = Vec::new();
    let mut i: usize = 0;
    while i < n
        invariant
            i <= n,
            v@.len() == i,
            forall|j: int| 0 <= j < i ==> v@[j] == 0u8,
        decreases n - i,
    {
        v.push(0);
        i = i + 1;
    }
    v
}

/// The 16-bit word with low byte `lo` and high byte `hi`.
pub open spec fn spec_word(lo: u8, hi: u8) -> u16 {
    (lo + hi * 0x100) as u16
}

/// Assemble a 16-bit word from its low and high bytes.
pub fn word(lo: u8, hi: u8) -> (r: u16)
    ensures
        r == spec_word(lo, hi),
        r & 0xFF == lo,
        r >> 8 == hi,
{
    let r: u16 = (lo as u16) | ((hi as u16) << 8);
    proof {
        assert((lo as u16) | ((hi as u16) << 8) == ((lo + hi * 0x100) as u16) && ((lo as u16)
            | ((hi as u16) << 8)) & 0xFF == lo && ((lo as u16) | ((hi as u16) << 8)) >> 8 == hi)
            by (bit_vector);
    }
    r
}

/// The low byte of a 16-bit word.
pub fn word_lo(w: u16) -> (r: u8)
    ensures
        r == (w & 0xFF) as u8,
        r == w % 0x100,
{
    proof {
        assert(w & 0xFF == w % 0x100) by (bit_vector);
    }
    (w & 0xFF) as u8
}

/// The high byte of a 16-bit word.
pub fn word_hi(w: u16) -> (r: u8)
    ensures
        r == (w >> 8) as u8,
        r == w / 0x100,
{
    proof {
        assert(w >> 8 == w / 0x100) by (bit_vector);
    }
    (w >> 8) as u8
}

/// Splitting a word into bytes and reassembling them gives the word back.
pub proof fn lemma_word_roundtrip(w: u16)
    ensures
        spec_word((w & 0xFF) as u8, (w >> 8) as u8) == w,
{
    assert((((w & 0xFF) as u8) + ((w >> 8) as u8) * 0x100) as u16 == w) by (bit_vector);
}

} // verus!
