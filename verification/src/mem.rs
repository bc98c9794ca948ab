//! The memory buffer: a fixed number of bytes, addressed by byte or by bit,
//! with one designated start offset.

use crate::bits::{byte_bit, byte_with_bit, lemma_byte_bit_is_digit, lemma_byte_with_bit};
use vstd::arithmetic::power2::lemma2_to64;
use vstd::prelude::*;

verus! {

/// Whether bit `i` of the memory `bytes` is set: bit `i % 8` of byte `i / 8`.
pub open spec fn bit_at(bytes: Seq<u8>, i: int) -> bool {
    byte_bit(bytes[i / 8], (i % 8) as usize)
}

/// The memory `bytes` after bit `i` was switched on or off.
pub open spec fn bit_written(bytes: Seq<u8>, i: int, on: bool) -> Seq<u8> {
    bytes.update(i / 8, byte_with_bit(bytes[i / 8], (i % 8) as usize, on))
}

/// A byte that was written reads back as written, and no other byte
/// changes.
pub proof fn lemma_byte_round_trip(bytes: Seq<u8>, i: int, j: int, v: u8)
    requires
        0 <= i < bytes.len(),
        0 <= j < bytes.len(),
    ensures
        bytes.update(i, v).len() == bytes.len(),
        bytes.update(i, v)[j] == (if j == i {
            v
        } else {
            bytes[j]
        }),
{
}

/// A bit that was written reads back as written, and no other bit of the
/// memory changes: neither in the same byte nor in another one.
pub proof fn lemma_bit_round_trip(bytes: Seq<u8>, i: int, j: int, on: bool)
    requires
        0 <= i < bytes.len() * 8,
        0 <= j < bytes.len() * 8,
    ensures
        bit_written(bytes, i, on).len() == bytes.len(),
        bit_at(bit_written(bytes, i, on), j) == (if j == i {
            on
        } else {
            bit_at(bytes, j)
        }),
{
    if j / 8 == i / 8 {
        lemma_byte_with_bit(bytes[i / 8], (i % 8) as usize, (j % 8) as usize, on);
    }
}

/// A buffer of `SIZE` bytes with a start offset. The capacity is part of
/// the type and never changes.
pub struct MemBuf<const SIZE: usize> {
    buf: [u8; SIZE],
    start: usize,
}

impl<const SIZE: usize> View for MemBuf<SIZE> {
    type V = Seq<u8>;

    /// The bytes of the buffer, in address order.
    closed spec fn view(&self) -> Seq<u8> {
        self.buf@
    }
}

impl<const SIZE: usize> MemBuf<SIZE> {
    /// The start offset the buffer was made with.
    pub closed spec fn start_index(&self) -> usize {
        self.start
    }

    /// The buffer always holds exactly `SIZE` bytes.
    pub proof fn lemma_len(&self)
        ensures
            self@.len() == SIZE,
    {
    }

    /// A buffer that holds `buf` and has the start offset `start`. The
    /// offset is not held against the capacity here: it is when the byte or
    /// the bit at it is read.
    pub fn new(buf: [u8; SIZE], start: usize) -> (m: Self)
        ensures
            m@ == buf@,
            m@.len() == SIZE,
            m.start_index() == start,
    {
        MemBuf { buf, start }
    }

    /// Writes the byte `b` at index `i`.
    pub fn set(&mut self, i: usize, b: u8)
        requires
            i < SIZE,
        ensures
            final(self)@ == old(self)@.update(i as int, b),
            final(self)@[i as int] == b,
            final(self).start_index() == old(self).start_index(),
    {
        self.buf[i] = b;
    }

    /// Switches bit `i` on or off: bit `i % 8` of byte `i / 8`. The other
    /// bits of the memory keep their values.
    ///
    /// The index `SIZE * 8`, one past the last bit, is out of range like
    /// every larger one: the byte it names is the one at `SIZE`.
    pub fn set_bit(&mut self, i: usize, s: bool)
        requires
            i < SIZE * 8,
        ensures
            final(self)@ == bit_written(old(self)@, i as int, s),
            forall|j: int|
                0 <= j < SIZE * 8 ==> #[trigger] bit_at(final(self)@, j) == (if j == i {
                    s
                } else {
                    bit_at(old(self)@, j)
                }),
            final(self).start_index() == old(self).start_index(),
    {
        let b: usize = i / 8;
        let k: usize = i % 8;
        if s {
            self.buf[b] = self.buf[b] | (1 << k);
        } else {
            self.buf[b] = self.buf[b] & !(1 << k);
        }
        proof {
            assert forall|j: int| 0 <= j < SIZE * 8 implies #[trigger] bit_at(final(self)@, j) == (if j
                == i {
                s
            } else {
                bit_at(old(self)@, j)
            }) by {
                lemma_bit_round_trip(old(self)@, i as int, j, s);
            }
        }
    }

    /// The byte at index `i`.
    pub fn get(&self, i: usize) -> (b: u8)
        requires
            i < SIZE,
        ensures
            b == self@[i as int],
    {
        self.buf[i]
    }

    /// Whether bit `i` is set: bit `i % 8` of byte `i / 8`.
    ///
    /// The index `SIZE * 8`, one past the last bit, is out of range like
    /// every larger one: the byte it names is the one at `SIZE`.
    pub fn get_bit(&self, i: usize) -> (s: bool)
        requires
            i < SIZE * 8,
        ensures
            s == bit_at(self@, i as int),
    {
        let b: usize = i / 8;
        let k: usize = i % 8;
        (self.buf[b] & (1 << k)) != 0
    }

    /// The byte at the start offset.
    pub fn start(&self) -> (b: u8)
        requires
            self.start_index() < SIZE,
        ensures
            b == self@[self.start_index() as int],
    {
        self.buf[self.start]
    }

    /// The bit at the start offset: bit `8 * start`, which is the least
    /// significant bit of the byte at the start offset.
    pub fn start_bit(&self) -> (s: bool)
        requires
            self.start_index() < SIZE,
        ensures
            s == bit_at(self@, self.start_index() * 8),
            s == (self@[self.start_index() as int] % 2 == 1),
    {
        proof {
            lemma2_to64();
            lemma_byte_bit_is_digit(self@[self.start as int], 0);
        }
        self.buf[self.start] % 2 == 1
    }

    /// All bytes of the buffer, read-only.
    pub fn get_buf(&self) -> (s: &[u8])
        ensures
            s@ == self@,
    {
        &self.buf
    }

    /// The start offset.
    pub fn get_start(&self) -> (start: usize)
        ensures
            start == self.start_index(),
    {
        self.start
    }
}

impl Default for MemBuf<512> {
    /// 512 zero bytes, with the start offset 0x200.
    fn default() -> (m: Self)
        ensures
            m@ == Seq::new(512, |i: int| 0u8),
            m@.len() == 512,
            m.start_index() == 0x200,
    {
        MemBuf::<512>::new([0u8;512], 0x200)
    }
}

} // verus!
