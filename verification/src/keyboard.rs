//! The keyboard: a fixed set of accepted symbols, tests of membership in
//! it, and a parser that the owner supplies. Validating and parsing are
//! independent steps: `parse_input` hands its input to the parser as it is.

use vstd::prelude::*;

verus! {

/// Whether every symbol of `text` is one of `keys`.
pub open spec fn all_valid(keys: Seq<char>, text: Seq<char>) -> bool {
    forall|i: int| 0 <= i < text.len() ==> keys.contains(#[trigger] text[i])
}

/// A set of `SIZE` accepted symbols and a parser `P`.
pub struct Keyboard<const SIZE: usize, P> {
    key_set: [char; SIZE],
    p: P,
}

impl<const SIZE: usize, P> Keyboard<SIZE, P> {
    /// The accepted symbols, in the order they were given.
    pub closed spec fn keys(&self) -> [char; SIZE] {
        self.key_set
    }

    /// The parser that `parse_input` calls.
    pub closed spec fn parser(&self) -> P {
        self.p
    }

    /// A keyboard that accepts the symbols `keys` and parses with `p`.
    pub fn new(keys: [char; SIZE], p: P) -> (k: Keyboard<SIZE, P>)
        ensures
            k.keys() == keys,
            k.parser() == p,
    {
        Keyboard { key_set: keys, p }
    }

    /// Whether `c` is one of the accepted symbols.
    pub fn is_char_valid(&self, c: char) -> (valid: bool)
        ensures
            valid == self.keys()@.contains(c),
    {
        let mut i: usize = 0;
        while i < SIZE
            invariant
                i <= SIZE,
                forall|j: int| 0 <= j < i ==> self.keys()@[j] != c,
            decreases SIZE - i,
        {
            if self.key_set[i] == c {
                return true;
            }
            i += 1;
        }
        false
    }

    /// Whether every symbol of `s` is accepted. The empty string is.
    pub fn is_str_valid(&self, s: &str) -> (valid: bool)
        ensures
            valid == all_valid(self.keys()@, s@),
    {
        for c in symbols: s.chars()
            invariant
                symbols.seq() == s@,
                forall|i: int| 0 <= i < symbols.index() ==> self.keys()@.contains(#[trigger] s@[i]),
        {
            if !self.is_char_valid(c) {
                return false;
            }
        }
        true
    }

    /// Hands the accepted symbols and the input `i` to the parser and
    /// returns what it returns. The input is not validated: it need not be
    /// text at all.
    pub fn parse_input<I, O>(&self, i: I) -> (o: O) where P: Fn([char; SIZE], I) -> O
        requires
            call_requires(self.parser(), (self.keys(), i)),
        ensures
            call_ensures(self.parser(), (self.keys(), i), o),
    {
        (self.p)(self.key_set, i)
    }
}

} // verus!
