//! Decoding of the hardware's compact floating-point words.
//!
//! Each 64-bit word holds an 8-bit exponent in its most-significant byte and
//! a 56-bit mantissa in the rest.  The exponent counts powers of four, so the
//! integer magnitude of a word is its mantissa shifted left by twice its
//! exponent.  The shift is taken modulo 2^64 (bits shifted past the top are
//! discarded, and a shift distance of 64 or more yields zero); exponents above
//! 31 therefore decode to zero.  Structurally the hardware only produces
//! exponents up to 63, and this policy extends the in-range behaviour to all
//! words, so decoding is total.

use vstd::arithmetic::div_mod::lemma_mod_multiples_basic;
use vstd::arithmetic::power2::{lemma2_to64, lemma_pow2_adds, pow2};
use vstd::prelude::*;

verus! {

/// Mask selecting the mantissa bits of a word.
pub const MANTISSA_MASK: u64 = 0x00ff_ffff_ffff_ffff;

/// The exponent of a word: its top byte.
pub open spec fn word_exponent_spec(x: u64) -> u64 {
    x >> 56
}

/// The mantissa of a word: its low 56 bits.
pub open spec fn word_mantissa_spec(x: u64) -> u64 {
    x & MANTISSA_MASK
}

/// The integer magnitude a word decodes to: the mantissa shifted left by
/// twice the exponent, truncated to 64 bits (zero once the shift distance
/// reaches 64).
pub open spec fn word_magnitude_spec(x: u64) -> u64 {
    if word_exponent_spec(x) < 32 {
        word_mantissa_spec(x) << (2 * word_exponent_spec(x))
    } else {
        0u64
    }
}

/// Extracts the exponent (top byte) of a word.
pub fn word_exponent(x: u64) -> (e: u64)
    ensures
        e == word_exponent_spec(x),
        e <= 255,
{
    proof {
        assert(x >> 56 <= 255) by (bit_vector);
    }
    x >> 56
}

/// Extracts the mantissa (low 56 bits) of a word.
pub fn word_mantissa(x: u64) -> (m: u64)
    ensures
        m == word_mantissa_spec(x),
{
    x & MANTISSA_MASK
}

/// Decodes one word to its integer magnitude.
pub fn word_magnitude(x: u64) -> (m: u64)
    ensures
        m == word_magnitude_spec(x),
{
    let e = word_exponent(x);
    if e < 32 {
        word_mantissa(x) << (2 * e)
    } else {
        0
    }
}

/// Law: for every word, the decoded magnitude is the mantissa multiplied by
/// four to the exponent, reduced modulo 2^64.  This makes the truncation
/// policy exact: bits shifted past the top are the multiples of 2^64 that the
/// reduction discards, and once the exponent reaches 32 the whole product is
/// such a multiple, so the magnitude is zero.
pub proof fn lemma_word_magnitude_is_mod_reduced_product(x: u64)
    ensures
        word_magnitude_spec(x) as int == (word_mantissa_spec(x) * pow2(
            (2 * word_exponent_spec(x)) as nat,
        )) % 0x1_0000_0000_0000_0000,
{
    let e = word_exponent_spec(x);
    let m = word_mantissa_spec(x);
    assert(x >> 56 <= 255) by (bit_vector);
    if e < 32 {
        let s = (2 * e) as u64;
        vstd::bits::lemma_u64_pow2_no_overflow(s as nat);
        vstd::bits::lemma_u64_shl_is_mul(1u64, s);
        let p = 1u64 << s;
        assert((m << s) as int == (m as int * p as int) % 0x1_0000_0000_0000_0000) by (bit_vector)
            requires
                p == 1u64 << s,
                s < 64,
        ;
        assert(m << (2 * e) == m << s);
        assert(p == pow2(s as nat));
    } else {
        let t = (2 * e) as nat;
        lemma2_to64();
        lemma_pow2_adds(64, (t - 64) as nat);
        assert(m * (pow2(64) * pow2((t - 64) as nat)) == (m * pow2((t - 64) as nat)) * pow2(64))
            by (nonlinear_arith);
        lemma_mod_multiples_basic((m * pow2((t - 64) as nat)) as int, pow2(64) as int);
    }
}

/// The magnitudes of a whole buffer, word by word, in order.
pub open spec fn magnitudes_spec(buffer: Seq<u64>) -> Seq<u64> {
    buffer.map_values(|x: u64| word_magnitude_spec(x))
}

/// Decodes a whole buffer to its integer magnitudes: one magnitude per input
/// word, in the words' order.
pub fn decode_magnitudes(buffer: &Vec<u64>) -> (r: Vec<u64>)
    ensures
        r@ == magnitudes_spec(buffer@),
        r@.len() == buffer@.len(),
{
    let mut r: Vec<u64> = Vec::new();
    let mut j: usize = 0;
    while j < buffer.len()
        invariant
            j <= buffer@.len(),
            r@.len() == j,
            forall|k: int| 0 <= k < j ==> r@[k] == word_magnitude_spec(buffer@[k]),
        decreases buffer@.len() - j,
    {
        r.push(word_magnitude(buffer[j]));
        j = j + 1;
    }
    proof {
        assert(r@ =~= magnitudes_spec(buffer@));
    }
    r
}

} // verus!
