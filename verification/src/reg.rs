//! Registers: a cached value bound to one memory index (a byte) or to two
//! (a big-endian word). The cache and the memory meet only in `get`, which
//! pulls the value out of a buffer, and in `set`, which pushes it back.

use crate::bits::{
    byte_bit, byte_with_bit, lemma_byte_with_bit, lemma_word_with_bit,
    lemma_word_with_byte, word_bit, word_byte, word_lsb, word_msb, word_of, word_with_bit,
    word_with_byte,
};
use crate::mem::MemBuf;
use vstd::prelude::*;

verus! {

/// The word that the bytes at `low` and `high` form, the one at `low` being
/// the most significant.
pub open spec fn word_at(bytes: Seq<u8>, low: int, high: int) -> u16 {
    word_of(bytes[low], bytes[high])
}

/// The memory `bytes` after the word `v` was stored at `low` and `high`: its
/// most significant byte at `low`, then its least significant one at `high`.
pub open spec fn word_written(bytes: Seq<u8>, low: int, high: int, v: u16) -> Seq<u8> {
    bytes.update(low, word_msb(v)).update(high, word_lsb(v))
}

/// A word that was pushed to two distinct indices pulls back unchanged; the
/// two bytes in memory are its big-endian bytes, and no other byte changes.
pub proof fn lemma_word_round_trip(bytes: Seq<u8>, low: int, high: int, v: u16)
    requires
        0 <= low < bytes.len(),
        0 <= high < bytes.len(),
        low != high,
    ensures
        word_at(word_written(bytes, low, high, v), low, high) == v,
        word_written(bytes, low, high, v)[low] == word_msb(v),
        word_written(bytes, low, high, v)[high] == word_lsb(v),
        word_written(bytes, low, high, v).len() == bytes.len(),
        forall|j: int|
            0 <= j < bytes.len() && j != low && j != high ==> word_written(bytes, low, high, v)[j]
                == bytes[j],
{
}

/// An 8-bit register: a cached value and the memory index it is bound to.
pub struct Reg8 {
    v: u8,
    i: usize,
}

impl Reg8 {
    /// The cached value.
    pub closed spec fn value(&self) -> u8 {
        self.v
    }

    /// The memory index the register is bound to.
    pub closed spec fn index(&self) -> usize {
        self.i
    }

    /// A register bound to index `i` whose cache holds `v`. Whether the
    /// index fits a buffer is asked when the register meets one.
    pub fn new(i: usize, v: u8) -> (r: Reg8)
        ensures
            r.index() == i,
            r.value() == v,
    {
        Reg8 { v, i }
    }

    /// Pulls: the cache takes the byte that `m` holds at the bound index.
    pub fn get<const S: usize>(&mut self, m: &MemBuf<S>)
        requires
            old(self).index() < S,
        ensures
            final(self).value() == m@[old(self).index() as int],
            final(self).index() == old(self).index(),
    {
        self.v = m.get(self.i);
    }

    /// Whether bit `i` of the cache is set.
    pub fn get_bit(&self, i: usize) -> (s: bool)
        requires
            i < 8,
        ensures
            s == byte_bit(self.value(), i),
    {
        self.v & (1 << i) != 0
    }

    /// Pushes: the byte of `m` at the bound index takes the cached value.
    pub fn set<const S: usize>(&self, m: &mut MemBuf<S>)
        requires
            self.index() < S,
        ensures
            final(m)@ == old(m)@.update(self.index() as int, self.value()),
            final(m)@[self.index() as int] == self.value(),
            final(m).start_index() == old(m).start_index(),
    {
        m.set(self.i, self.v);
    }

    /// Switches bit `i` of the cache on or off. The other bits keep their
    /// values, and no memory is written.
    pub fn set_bit(&mut self, i: usize, b: bool)
        requires
            i < 8,
        ensures
            final(self).value() == byte_with_bit(old(self).value(), i, b),
            forall|j: usize|
                j < 8 ==> #[trigger] byte_bit(final(self).value(), j) == (if j == i {
                    b
                } else {
                    byte_bit(old(self).value(), j)
                }),
            final(self).index() == old(self).index(),
    {
        if b {
            self.v = self.v | (1 << i);
        } else {
            self.v = self.v & !(1 << i);
        }
        proof {
            assert forall|j: usize| j < 8 implies #[trigger] byte_bit(final(self).value(), j) == (if j
                == i {
                b
            } else {
                byte_bit(old(self).value(), j)
            }) by {
                lemma_byte_with_bit(old(self).value(), i, j, b);
            }
        }
    }

    /// The cached value.
    pub fn get_value(&self) -> (v: u8)
        ensures
            v == self.value(),
    {
        self.v
    }

    /// Replaces the cached value. No memory is written.
    pub fn set_value(&mut self, v: u8)
        ensures
            final(self).value() == v,
            final(self).index() == old(self).index(),
    {
        self.v = v;
    }
}

/// A 16-bit register: a cached value and the two distinct memory indices
/// that hold its big-endian bytes.
pub struct Reg16 {
    v: u16,
    i: [usize; 2],
}

impl Reg16 {
    /// The cached value.
    pub closed spec fn value(&self) -> u16 {
        self.v
    }

    /// The index bound to the most significant byte.
    pub closed spec fn low(&self) -> usize {
        self.i[0]
    }

    /// The index bound to the least significant byte.
    pub closed spec fn high(&self) -> usize {
        self.i[1]
    }

    /// The two bound indices differ. This holds of every register there
    /// is: no call can make one of which it does not.
    #[verifier::type_invariant]
    pub open spec fn distinct(&self) -> bool {
        self.low() != self.high()
    }

    /// A register bound to the indices `i[0]` and `i[1]` whose cache holds
    /// `v`. The two indices must differ.
    pub fn new(i: [usize; 2], v: u16) -> (r: Reg16)
        requires
            i[0] != i[1],
        ensures
            r.low() == i[0],
            r.high() == i[1],
            r.value() == v,
    {
        Reg16 { v, i }
    }

    /// Pulls: the cache takes the word that `m` holds at the two bound
    /// indices, the byte at the first one being the most significant.
    pub fn get<const S: usize>(&mut self, m: &MemBuf<S>)
        requires
            old(self).low() < S,
            old(self).high() < S,
        ensures
            final(self).value() == word_at(m@, old(self).low() as int, old(self).high() as int),
            word_msb(final(self).value()) == m@[old(self).low() as int],
            word_lsb(final(self).value()) == m@[old(self).high() as int],
            final(self).low() == old(self).low(),
            final(self).high() == old(self).high(),
    {
        proof {
            use_type_invariant(&*self);
        }
        let a: u8 = m.get(self.i[0]);
        let b: u8 = m.get(self.i[1]);
        self.v = (a as u16) * 256 + (b as u16);
    }

    /// Whether bit `i` of the cache is set.
    pub fn get_bit(&self, i: usize) -> (s: bool)
        requires
            i < 16,
        ensures
            s == word_bit(self.value(), i),
    {
        self.v & (1 << i) != 0
    }

    /// Pushes: the most significant byte of the cache goes to the first
    /// bound index, then the least significant one to the second.
    pub fn set<const S: usize>(&self, m: &mut MemBuf<S>)
        requires
            self.low() < S,
            self.high() < S,
        ensures
            final(m)@ == word_written(old(m)@, self.low() as int, self.high() as int, self.value()),
            final(m)@[self.low() as int] == word_msb(self.value()),
            final(m)@[self.high() as int] == word_lsb(self.value()),
            word_at(final(m)@, self.low() as int, self.high() as int) == self.value(),
            final(m).start_index() == old(m).start_index(),
    {
        proof {
            use_type_invariant(self);
            m.lemma_len();
        }
        let a: u8 = (self.v / 256) as u8;
        let b: u8 = (self.v % 256) as u8;
        m.set(self.i[0], a);
        m.set(self.i[1], b);
    }

    /// Switches bit `i` of the cache on or off. The other bits keep their
    /// values, and no memory is written.
    pub fn set_bit(&mut self, i: usize, b: bool)
        requires
            i < 16,
        ensures
            final(self).value() == word_with_bit(old(self).value(), i, b),
            forall|j: usize|
                j < 16 ==> #[trigger] word_bit(final(self).value(), j) == (if j == i {
                    b
                } else {
                    word_bit(old(self).value(), j)
                }),
            final(self).low() == old(self).low(),
            final(self).high() == old(self).high(),
    {
        proof {
            use_type_invariant(&*self);
        }
        if b {
            self.v = self.v | (1 << i);
        } else {
            self.v = self.v & !(1 << i);
        }
        proof {
            assert forall|j: usize| j < 16 implies #[trigger] word_bit(final(self).value(), j) == (if j
                == i {
                b
            } else {
                word_bit(old(self).value(), j)
            }) by {
                lemma_word_with_bit(old(self).value(), i, j, b);
            }
        }
    }

    /// Component `i` of the cache's big-endian bytes: 0 is the most
    /// significant byte, 1 the least significant one.
    pub fn get_byte(&self, i: usize) -> (b: u8)
        requires
            i < 2,
        ensures
            b == word_byte(self.value(), i),
    {
        if i == 0 {
            (self.v / 256) as u8
        } else {
            (self.v % 256) as u8
        }
    }

    /// Replaces component `i` of the cache's big-endian bytes by `b`. The
    /// other component keeps its value, and no memory is written.
    pub fn set_byte(&mut self, i: usize, b: u8)
        requires
            i < 2,
        ensures
            final(self).value() == word_with_byte(old(self).value(), i, b),
            forall|j: usize|
                j < 2 ==> #[trigger] word_byte(final(self).value(), j) == (if j == i {
                    b
                } else {
                    word_byte(old(self).value(), j)
                }),
            final(self).low() == old(self).low(),
            final(self).high() == old(self).high(),
    {
        proof {
            use_type_invariant(&*self);
        }
        if i == 0 {
            self.v = (b as u16) * 256 + self.v % 256;
        } else {
            self.v = (self.v / 256) * 256 + (b as u16);
        }
        proof {
            assert forall|j: usize| j < 2 implies #[trigger] word_byte(final(self).value(), j) == (if j
                == i {
                b
            } else {
                word_byte(old(self).value(), j)
            }) by {
                lemma_word_with_byte(old(self).value(), i, j, b);
            }
        }
    }

    /// Replaces the cached value. No memory is written.
    pub fn set_value(&mut self, v: u16)
        ensures
            final(self).value() == v,
            final(self).low() == old(self).low(),
            final(self).high() == old(self).high(),
    {
        proof {
            use_type_invariant(&*self);
        }
        self.v = v;
    }

    /// The cached value.
    pub fn get_value(&self) -> (v: u16)
        ensures
            v == self.value(),
    {
        self.v
    }
}

} // verus!
