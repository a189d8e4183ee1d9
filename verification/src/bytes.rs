//! Composition and decomposition of 16-bit words into 8-bit halves.

use vstd::prelude::*;

verus! {

/// The word whose upper half is `high` and whose lower half is `low`.
pub open spec fn spec_assemble_word(high: u8, low: u8) -> u16 {
    (high * 256 + low) as u16
}

/// The upper eight bits of `word`.
pub open spec fn spec_high_order_byte(word: u16) -> u8 {
    (word / 256) as u8
}

/// The lower eight bits of `word`.
pub open spec fn spec_low_order_byte(word: u16) -> u8 {
    (word % 256) as u8
}

#[verifier::when_used_as_spec(spec_assemble_word)]
pub fn assemble_word(high: u8, low: u8) -> (word: u16)
    ensures
        word == spec_assemble_word(high, low),
{
    let word = ((high as u16) << 8) | (low as u16);
    assert(((high as u16) << 8) | (low as u16) == (high as u16) * 256 + (low as u16))
        by (bit_vector);
    word
}

#[verifier::when_used_as_spec(spec_high_order_byte)]
pub fn high_order_byte(word: u16) -> (high: u8)
    ensures
        high == spec_high_order_byte(word),
{
    assert(word >> 8 == word / 256) by (bit_vector);
    (word >> 8) as u8
}

#[verifier::when_used_as_spec(spec_low_order_byte)]
pub fn low_order_byte(word: u16) -> (low: u8)
    ensures
        low == spec_low_order_byte(word),
{
    assert(word & 0xff == word % 256) by (bit_vector);
    (word & 0xff) as u8
}

/// Splitting a word and putting the halves together again gives the word back.
pub proof fn lemma_split_then_assemble(word: u16)
    ensures
        assemble_word(high_order_byte(word), low_order_byte(word)) == word,
{
}

/// The halves of an assembled word are the bytes it was assembled from.
pub proof fn lemma_assemble_then_split(high: u8, low: u8)
    ensures
        high_order_byte(assemble_word(high, low)) == high,
        low_order_byte(assemble_word(high, low)) == low,
{
}

} // verus!
