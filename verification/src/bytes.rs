use vstd::prelude::*;

verus! {

/// The 16-bit word whose high byte is `hi` and whose low byte is `lo`.
pub open spec fn word(hi: u8, lo: u8) -> u16 {
    (hi as int * 256 + lo as int) as u16
}

/// The high byte of a 16-bit word.
pub open spec fn high_byte(n: u16) -> u8 {
    (n as int / 256) as u8
}

/// The low byte of a 16-bit word.
pub open spec fn low_byte(n: u16) -> u8 {
    (n as int % 256) as u8
}

/// Joins a high and a low byte into one 16-bit word.
pub fn u8_to_u16(hi: u8, lo: u8) -> (n: u16)
    ensures
        n == word(hi, lo),
{
    (hi as u16) * 256 + (lo as u16)
}

/// Splits a 16-bit word into its high and its low byte.
pub fn u16_to_u8(n: u16) -> (bytes: (u8, u8))
    ensures
        bytes.0 == high_byte(n),
        bytes.1 == low_byte(n),
{
    ((n / 256) as u8, (n % 256) as u8)
}

/// Splitting a word into its bytes and joining them again gives the word back.
pub proof fn lemma_word_of_bytes(n: u16)
    ensures
        word(high_byte(n), low_byte(n)) == n,
{
}

/// Joining two bytes into a word and splitting it again gives the bytes back.
pub proof fn lemma_bytes_of_word(hi: u8, lo: u8)
    ensures
        high_byte(word(hi, lo)) == hi,
        low_byte(word(hi, lo)) == lo,
{
}

} // verus!
