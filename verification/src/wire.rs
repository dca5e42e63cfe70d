//! Byte-level encodings: little-endian words and the register write frames
//! that go out on the bus.
use vstd::prelude::*;

verus! {

/// The unsigned little-endian word made of `lo` and `hi`.
pub open spec fn spec_le_u16(lo: u8, hi: u8) -> u16 {
    (lo as u16) | ((hi as u16) << 8)
}

/// The signed (two's complement) little-endian word made of `lo` and `hi`.
pub open spec fn spec_le_i16(lo: u8, hi: u8) -> int {
    let u = lo as int + 256 * hi as int;
    if u < 0x8000 {
        u
    } else {
        u - 0x10000
    }
}

/// The unsigned little-endian double word made of four bytes.
pub open spec fn spec_le_u32(b0: u8, b1: u8, b2: u8, b3: u8) -> int {
    b0 as int + 0x100 * b1 as int + 0x1_0000 * b2 as int + 0x100_0000 * b3 as int
}

/// The low byte of a word.
pub open spec fn spec_lo(v: u16) -> u8 {
    (v % 256) as u8
}

/// The high byte of a word.
pub open spec fn spec_hi(v: u16) -> u8 {
    (v / 256) as u8
}

/// The unsigned word is the sum of its bytes.
pub proof fn lemma_le_u16_value(lo: u8, hi: u8)
    ensures
        spec_le_u16(lo, hi) == lo as int + 256 * hi as int,
{
    assert((lo as u16) | ((hi as u16) << 8) == lo as u16 + 256 * (hi as u16)) by (bit_vector);
}

/// Splitting a word into its bytes and joining them gives the word back, and
/// the other way round.
pub proof fn lemma_le_u16_roundtrip(v: u16, lo: u8, hi: u8)
    ensures
        spec_le_u16(spec_lo(v), spec_hi(v)) == v,
        spec_lo(spec_le_u16(lo, hi)) == lo,
        spec_hi(spec_le_u16(lo, hi)) == hi,
{
    lemma_le_u16_value(spec_lo(v), spec_hi(v));
    lemma_le_u16_value(lo, hi);
}

/// Joins two bytes into an unsigned little-endian word.
pub fn le_u16(lo: u8, hi: u8) -> (r: u16)
    ensures
        r == spec_le_u16(lo, hi),
        r == lo as int + 256 * hi as int,
{
    proof {
        lemma_le_u16_value(lo, hi);
    }
    (lo as u16) | ((hi as u16) << 8)
}

/// Joins two bytes into a signed little-endian word.
pub fn le_i16(lo: u8, hi: u8) -> (r: i16)
    ensures
        r == spec_le_i16(lo, hi),
{
    let u = le_u16(lo, hi);
    if u < 0x8000 {
        u as i16
    } else {
        let neg = (0xFFFF - u) as i16;
        -neg - 1
    }
}

/// Joins four bytes into an unsigned little-endian double word.
pub fn le_u32(b0: u8, b1: u8, b2: u8, b3: u8) -> (r: u32)
    ensures
        r == spec_le_u32(b0, b1, b2, b3),
{
    (b0 as u32) + 0x100 * (b1 as u32) + 0x1_0000 * (b2 as u32) + 0x100_0000 * (b3 as u32)
}

/// The bytes that write `value` to register `reg`: the address, then the
/// value low byte first.
pub open spec fn spec_write_frame(reg: u8, value: u16) -> Seq<u8> {
    seq![reg, spec_lo(value), spec_hi(value)]
}

/// A write frame is the register address followed by the value, low byte
/// first: the two bytes after the address join back into the value.
pub proof fn lemma_write_frame_value(reg: u8, value: u16)
    ensures
        spec_write_frame(reg, value).len() == 3,
        spec_write_frame(reg, value)[0] == reg,
        spec_write_frame(reg, value)[1] + 256 * spec_write_frame(reg, value)[2] == value,
{
}

/// The three words of a word frame follow the address, each low byte first.
pub proof fn lemma_write_words_frame_values(reg: u8, words: [u16; 3])
    ensures
        spec_write_words_frame(reg, words).len() == 7,
        spec_write_words_frame(reg, words)[0] == reg,
        forall|k: int|
            0 <= k < 3 ==> spec_write_words_frame(reg, words)[1 + 2 * k] + 256
                * spec_write_words_frame(reg, words)[2 + 2 * k] == words[k],
{
    assert forall|k: int| 0 <= k < 3 implies spec_write_words_frame(reg, words)[1 + 2 * k] + 256
        * spec_write_words_frame(reg, words)[2 + 2 * k] == words[k] by {
        if k == 0 {
        } else if k == 1 {
        } else {
        }
    }
}

/// The bytes that write `value` to register `reg`.
pub fn write_frame(reg: u8, value: u16) -> (r: Vec<u8>)
    ensures
        r@ == spec_write_frame(reg, value),
{
    let lo = (value % 256) as u8;
    let hi = (value / 256) as u8;
    vec![reg, lo, hi]
}

/// The bytes that write three words to consecutive positions of register
/// `reg`, each low byte first.
pub open spec fn spec_write_words_frame(reg: u8, words: [u16; 3]) -> Seq<u8> {
    seq![
        reg,
        spec_lo(words[0]),
        spec_hi(words[0]),
        spec_lo(words[1]),
        spec_hi(words[1]),
        spec_lo(words[2]),
        spec_hi(words[2]),
    ]
}

/// The bytes that write three words to register `reg`.
pub fn write_words_frame(reg: u8, words: [u16; 3]) -> (r: Vec<u8>)
    ensures
        r@ == spec_write_words_frame(reg, words),
{
    let w0 = words[0];
    let w1 = words[1];
    let w2 = words[2];
    vec![
        reg,
        (w0 % 256) as u8,
        (w0 / 256) as u8,
        (w1 % 256) as u8,
        (w1 / 256) as u8,
        (w2 % 256) as u8,
        (w2 / 256) as u8,
    ]
}

/// The two bytes of a signed word decode back to it.
pub proof fn lemma_le_i16_roundtrip(x: i16)
    ensures
        spec_le_i16(
            spec_lo(#[verifier::truncate] (x as u16)),
            spec_hi(#[verifier::truncate] (x as u16)),
        ) == x,
{
    let u = #[verifier::truncate] (x as u16);
    assert(x >= 0 ==> u == x) by (bit_vector)
        requires
            u == #[verifier::truncate] (x as u16),
    ;
    assert(x < 0 ==> u == x + 0x10000) by (bit_vector)
        requires
            u == #[verifier::truncate] (x as u16),
    ;
}

} // verus!
