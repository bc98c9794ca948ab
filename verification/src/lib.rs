//! The addressable state of a small byte-oriented virtual machine: a
//! fixed-capacity memory buffer, byte and word registers that are loaded from
//! and stored to it by explicit calls, a countdown timer paced by the wall
//! clock, and the display and keyboard that sit beside them.
//!
//! Every executable function carries a contract over a mathematical model:
//! memory is a `Seq<u8>`, a register is its cached value and the indices it
//! is bound to, and the bit and byte arithmetic is defined in [`bits`].
//!
//! Nothing here clamps an index or answers one that is out of range with a
//! default: a byte index at or beyond the capacity, a bit index at or beyond
//! eight times the capacity (or the width of a register), and a word
//! register bound twice to one index are faults of the caller. Each function
//! names its range in `requires`, so that a verified caller has been shown
//! to stay inside it.

pub mod bits;
pub mod display;
pub mod keyboard;
pub mod mem;
pub mod reg;
pub mod timers;
