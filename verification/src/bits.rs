//! Bit addressing inside a byte or a 16-bit word, and the big-endian split
//! of a word into two bytes.
//!
//! Bit `k` is the binary digit of weight `2^k`: bit 0 is the least
//! significant one.

use vstd::arithmetic::power2::{lemma2_to64, pow2};
use vstd::prelude::*;

verus! {

/// Whether bit `k` of the byte `b` is set.
pub open spec fn byte_bit(b: u8, k: usize) -> bool {
    b & (1u8 << k) != 0
}

/// The byte `b` with bit `k` switched on or off and every other bit kept.
pub open spec fn byte_with_bit(b: u8, k: usize, on: bool) -> u8 {
    if on {
        b | (1u8 << k)
    } else {
        b & !(1u8 << k)
    }
}

/// Whether bit `k` of the word `v` is set.
pub open spec fn word_bit(v: u16, k: usize) -> bool {
    v & (1u16 << k) != 0
}

/// The word `v` with bit `k` switched on or off and every other bit kept.
pub open spec fn word_with_bit(v: u16, k: usize, on: bool) -> u16 {
    if on {
        v | (1u16 << k)
    } else {
        v & !(1u16 << k)
    }
}

/// The most significant byte of a word: the one that comes first in
/// big-endian order.
pub open spec fn word_msb(v: u16) -> u8 {
    (v / 256) as u8
}

/// The least significant byte of a word: the one that comes second in
/// big-endian order.
pub open spec fn word_lsb(v: u16) -> u8 {
    (v % 256) as u8
}

/// The word whose big-endian bytes are `msb`, then `lsb`.
pub open spec fn word_of(msb: u8, lsb: u8) -> u16 {
    (msb * 256 + lsb) as u16
}

/// Component `i` of a word's big-endian bytes: 0 is the most significant.
pub open spec fn word_byte(v: u16, i: usize) -> u8 {
    if i == 0 {
        word_msb(v)
    } else {
        word_lsb(v)
    }
}

/// The word `v` with component `i` of its big-endian bytes replaced by `b`.
pub open spec fn word_with_byte(v: u16, i: usize, b: u8) -> u16 {
    if i == 0 {
        word_of(b, word_lsb(v))
    } else {
        word_of(word_msb(v), b)
    }
}

/// A bit that was written reads back as written, and writing one bit of a
/// byte leaves the other seven as they were.
pub proof fn lemma_byte_with_bit(b: u8, k: usize, j: usize, on: bool)
    requires
        k < 8,
        j < 8,
    ensures
        byte_bit(byte_with_bit(b, k, on), j) == (if j == k {
            on
        } else {
            byte_bit(b, j)
        }),
{
    assert(byte_bit(byte_with_bit(b, k, on), j) == (if j == k {
        on
    } else {
        byte_bit(b, j)
    })) by (bit_vector)
        requires
            k < 8,
            j < 8,
    ;
}

/// A bit that was written reads back as written, and writing one bit of a
/// word leaves the other fifteen as they were.
pub proof fn lemma_word_with_bit(v: u16, k: usize, j: usize, on: bool)
    requires
        k < 16,
        j < 16,
    ensures
        word_bit(word_with_bit(v, k, on), j) == (if j == k {
            on
        } else {
            word_bit(v, j)
        }),
{
    assert(word_bit(word_with_bit(v, k, on), j) == (if j == k {
        on
    } else {
        word_bit(v, j)
    })) by (bit_vector)
        requires
            k < 16,
            j < 16,
    ;
}

/// Bit `k` of a byte is its binary digit of weight `2^k`.
pub proof fn lemma_byte_bit_is_digit(b: u8, k: usize)
    requires
        k < 8,
    ensures
        byte_bit(b, k) <==> (b as nat / pow2(k as nat)) % 2 == 1,
{
    let weight: u8 = 1u8 << k;
    assert(byte_bit(b, k) <==> (b / weight) % 2 == 1) by (bit_vector)
        requires
            k < 8,
            weight == 1u8 << k,
    ;
    assert((k == 0 ==> weight == 1) && (k == 1 ==> weight == 2) && (k == 2 ==> weight == 4) && (k
        == 3 ==> weight == 8) && (k == 4 ==> weight == 16) && (k == 5 ==> weight == 32) && (k == 6
        ==> weight == 64) && (k == 7 ==> weight == 128)) by (bit_vector)
        requires
            k < 8,
            weight == 1u8 << k,
    ;
    lemma2_to64();
    assert(weight as nat == pow2(k as nat));
}

/// A component that was written reads back as written, and writing one of
/// a word's two bytes leaves the other as it was.
pub proof fn lemma_word_with_byte(v: u16, i: usize, j: usize, b: u8)
    requires
        i < 2,
        j < 2,
    ensures
        word_byte(word_with_byte(v, i, b), j) == (if j == i {
            b
        } else {
            word_byte(v, j)
        }),
{
}

} // verus!
