//! The display: a frame of `SIZE` bytes that is copied from a window of the
//! memory buffer and rendered as text, one glyph per bit.

use crate::bits::byte_bit;
use crate::mem::MemBuf;
use vstd::prelude::*;
use vstd::string::StringExecFns;

verus! {

/// The glyphs of the `n` lowest bits of `b`, the highest of them first:
/// `t` for a bit that is set, `f` for one that is not.
pub open spec fn row(b: u8, n: nat, f: Seq<char>, t: Seq<char>) -> Seq<char>
    decreases n,
{
    if n == 0 {
        Seq::empty()
    } else {
        (if byte_bit(b, (n - 1) as usize) {
            t
        } else {
            f
        }) + row(b, (n - 1) as nat, f, t)
    }
}

/// The text of a frame. Each byte gives a row of eight glyphs, most
/// significant bit first. The row of a later byte stands before the rows of
/// the earlier ones, and one line feed per byte ends the text.
pub open spec fn render(frame: Seq<u8>, f: Seq<char>, t: Seq<char>) -> Seq<char>
    decreases frame.len(),
{
    if frame.len() == 0 {
        Seq::empty()
    } else {
        row(frame.last(), 8, f, t) + render(frame.drop_last(), f, t) + seq!['\n']
    }
}

/// A frame of `SIZE` bytes, with the width and height of the grid it stands
/// for and the offset of its window into the memory.
pub struct Display<const SIZE: usize> {
    w: usize,
    h: usize,
    s: usize,
    b: [u8; SIZE],
}

impl<const SIZE: usize> View for Display<SIZE> {
    type V = Seq<u8>;

    /// The bytes of the frame.
    closed spec fn view(&self) -> Seq<u8> {
        self.b@
    }
}

impl<const SIZE: usize> Display<SIZE> {
    /// The width of the grid, in bits.
    pub closed spec fn width(&self) -> usize {
        self.w
    }

    /// The height of the grid, in rows.
    pub closed spec fn height(&self) -> usize {
        self.h
    }

    /// The index in memory at which the window starts.
    pub closed spec fn offset(&self) -> usize {
        self.s
    }

    /// A display of `w` by `h` bits whose window starts at the index `s`.
    /// Its frame is blank.
    pub fn new(w: usize, h: usize, s: usize) -> (d: Display<SIZE>)
        ensures
            d@ == Seq::new(SIZE as nat, |i: int| 0u8),
            d.width() == w,
            d.height() == h,
            d.offset() == s,
    {
        Display { w, h, s, b: [0u8;SIZE] }
    }

    /// Copies the window of `m` into the frame: the `SIZE` bytes from the
    /// offset on.
    pub fn update<const S: usize>(&mut self, m: &MemBuf<S>)
        requires
            old(self).offset() + SIZE <= S,
        ensures
            final(self)@ == m@.subrange(
                old(self).offset() as int,
                old(self).offset() + SIZE as int,
            ),
            final(self).width() == old(self).width(),
            final(self).height() == old(self).height(),
            final(self).offset() == old(self).offset(),
    {
        proof {
            m.lemma_len();
        }
        let mut i: usize = 0;
        while i < SIZE
            invariant
                i <= SIZE,
                self.s + SIZE <= S,
                m@.len() == S,
                self.w == old(self).w,
                self.h == old(self).h,
                self.s == old(self).s,
                forall|j: int| 0 <= j < i ==> self.b@[j] == m@[j + self.s],
            decreases SIZE - i,
        {
            self.b[i] = m.get(i + self.s);
            i += 1;
        }
    }

    /// The bytes of the frame.
    pub fn as_bytes(&self) -> (bytes: [u8; SIZE])
        ensures
            bytes@ == self@,
    {
        self.b
    }

    /// The frame as text, with a space for a bit that is not set and `*`
    /// for one that is.
    pub fn as_str(&self) -> (text: String)
        ensures
            text@ == render(self@, seq![' '], seq!['*']),
    {
        proof {
            reveal_strlit(" ");
            reveal_strlit("*");
            assert(" "@ =~= seq![' ']);
            assert("*"@ =~= seq!['*']);
        }
        self.format(" ", "*")
    }

    /// The frame as text, with the glyph `f` for a bit that is not set and
    /// `t` for one that is.
    pub fn format(&self, f: &str, t: &str) -> (text: String)
        ensures
            text@ == render(self@, f@, t@),
    {
        let mut text: String = String::new();
        let mut k: usize = 0;
        while k < SIZE
            invariant
                k <= SIZE,
                text@ == render(self@.take(k as int), f@, t@),
            decreases SIZE - k,
        {
            let b: u8 = self.b[k];
            let ghost below: Seq<char> = text@;
            let mut i: usize = 0;
            while i < 8
                invariant
                    i <= 8,
                    text@ == row(b, i as nat, f@, t@) + below,
                decreases 8 - i,
            {
                proof {
                    assert(byte_bit(b, i) == (b >> i & 1 != 0)) by (bit_vector)
                        requires
                            i < 8,
                    ;
                }
                if b >> i & 1 != 0 {
                    text = String::from_str(t).concat(text.as_str());
                } else {
                    text = String::from_str(f).concat(text.as_str());
                }
                i += 1;
            }
            proof {
                reveal_strlit("\n");
            }
            text.append("\n");
            k += 1;
            proof {
                let now: Seq<u8> = self@.take(k as int);
                assert(now.drop_last() =~= self@.take(k - 1));
            }
        }
        assert(self@.take(SIZE as int) =~= self@);
        text
    }
}

} // verus!
