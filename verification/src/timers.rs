//! The countdown timer: it drives one byte register, and takes one off its
//! value each time the tick interval has passed on the wall clock.
//!
//! The decision is [`Timer::step`], which is told how much time has passed
//! and is verified for every such amount. [`Timer::update`] reads the clock
//! and hands what it read to `step`.

use crate::mem::MemBuf;
use crate::reg::Reg8;
use std::time::{Duration, Instant};
use vstd::prelude::*;

verus! {

/// `std::time::Instant`: a reading of the monotonic clock. Nothing is known
/// of what a value holds.
#[verifier::external_type_specification]
#[verifier::external_body]
pub struct ExInstant(Instant);

/// `Instant::now` reads the clock. Nothing is claimed of the reading.
pub assume_specification[ Instant::now ]() -> (t: Instant)
;

/// `Instant::elapsed` gives the time that has passed since the reading was
/// taken. It depends on the clock, so nothing is claimed of the amount.
pub assume_specification[ Instant::elapsed ](t: &Instant) -> (d: Duration)
;

/// `Duration::as_nanos` gives a duration as a whole number of nanoseconds.
/// Nothing is claimed of the number.
pub assume_specification[ Duration::as_nanos ](d: &Duration) -> (n: u128)
;

/// Whether a tick is due: whether `elapsed_nanos` nanoseconds are at least
/// one interval of a timer that ticks `hz` times per second, that is
/// `elapsed >= 1 / hz` in seconds. At 0 Hz the interval never ends.
pub open spec fn tick_due(elapsed_nanos: int, hz: int) -> bool {
    elapsed_nanos * hz >= 1_000_000_000
}

/// What one poll of the timer found.
#[derive(Clone, Copy, Debug, PartialEq, Eq, Structural)]
pub enum Tick {
    /// The register held zero: the timer has stopped, and nothing was done.
    Stopped,
    /// The register holds a value, and the interval has not passed yet.
    Waiting,
    /// The interval had passed: the callback got the value given here, and
    /// the register and the memory now hold one less.
    Fired(u8),
}

/// What a poll finds when the memory holds `value` at the register's index,
/// `elapsed_nanos` have passed since the last tick, and the timer ticks `hz`
/// times per second.
pub open spec fn tick_of(value: u8, elapsed_nanos: int, hz: int) -> Tick {
    if value == 0 {
        Tick::Stopped
    } else if tick_due(elapsed_nanos, hz) {
        Tick::Fired(value)
    } else {
        Tick::Waiting
    }
}

/// The value that the register and the memory hold after a poll that
/// pulled `value` and found `t`.
pub open spec fn value_after(value: u8, t: Tick) -> u8 {
    match t {
        Tick::Fired(v) => (v - 1) as u8,
        _ => value,
    }
}

/// The memory after a poll that found `t`: a tick stores one less than the
/// value it found at the register's index, and nothing else is written.
pub open spec fn memory_after(bytes: Seq<u8>, index: int, t: Tick) -> Seq<u8> {
    match t {
        Tick::Fired(v) => bytes.update(index, (v - 1) as u8),
        _ => bytes,
    }
}

/// A poll never raises the value. It takes exactly one off when it ticks,
/// and the tick carries the value that was found; it ticks exactly when
/// that value is not zero and the interval has passed; and it finds the
/// timer stopped exactly when the value is zero, whatever time has passed.
pub proof fn lemma_countdown(value: u8, elapsed_nanos: int, hz: int)
    ensures
        value_after(value, tick_of(value, elapsed_nanos, hz)) <= value,
        tick_of(value, elapsed_nanos, hz) is Fired <==> value != 0 && tick_due(elapsed_nanos, hz),
        tick_of(value, elapsed_nanos, hz) is Fired ==> tick_of(value, elapsed_nanos, hz)
            == Tick::Fired(value) && value_after(value, tick_of(value, elapsed_nanos, hz)) == value
            - 1,
        !(tick_of(value, elapsed_nanos, hz) is Fired) ==> value_after(
            value,
            tick_of(value, elapsed_nanos, hz),
        ) == value,
        tick_of(value, elapsed_nanos, hz) is Stopped <==> value == 0,
{
}

/// The value after a run of polls, one for each entry of `elapsed`, that
/// starts at `value`, while nothing else writes the register's byte.
pub open spec fn value_after_polls(value: u8, elapsed: Seq<int>, hz: int) -> u8
    decreases elapsed.len(),
{
    if elapsed.len() == 0 {
        value
    } else {
        let before: u8 = value_after_polls(value, elapsed.drop_last(), hz);
        value_after(before, tick_of(before, elapsed.last(), hz))
    }
}

/// The number of polls that tick in such a run: the number of calls of the
/// callback.
pub open spec fn ticks_in_polls(value: u8, elapsed: Seq<int>, hz: int) -> nat
    decreases elapsed.len(),
{
    if elapsed.len() == 0 {
        0
    } else {
        let before: u8 = value_after_polls(value, elapsed.drop_last(), hz);
        ticks_in_polls(value, elapsed.drop_last(), hz) + (if tick_of(before, elapsed.last(), hz)
            is Fired {
            1nat
        } else {
            0nat
        })
    }
}

/// Over any run of polls the value falls by exactly one for each tick: it
/// never rises, and it never loses more than the callback was told of.
pub proof fn lemma_one_off_per_tick(value: u8, elapsed: Seq<int>, hz: int)
    ensures
        value_after_polls(value, elapsed, hz) + ticks_in_polls(value, elapsed, hz) == value,
    decreases elapsed.len(),
{
    if elapsed.len() > 0 {
        lemma_one_off_per_tick(value, elapsed.drop_last(), hz);
    }
}

/// When each poll finds that the interval has passed, the value falls by
/// one per poll until it is zero, and stays there: after `value` polls or
/// more the timer has stopped, and the callback was called `value` times.
pub proof fn lemma_runs_down_to_zero(value: u8, elapsed: Seq<int>, hz: int)
    requires
        forall|i: int| 0 <= i < elapsed.len() ==> tick_due(#[trigger] elapsed[i], hz),
    ensures
        elapsed.len() <= value ==> value_after_polls(value, elapsed, hz) == value - elapsed.len(),
        elapsed.len() >= value ==> value_after_polls(value, elapsed, hz) == 0,
        elapsed.len() >= value ==> ticks_in_polls(value, elapsed, hz) == value,
    decreases elapsed.len(),
{
    lemma_one_off_per_tick(value, elapsed, hz);
    if elapsed.len() > 0 {
        lemma_runs_down_to_zero(value, elapsed.drop_last(), hz);
    }
}

/// Whether `elapsed_nanos` nanoseconds are at least one tick interval at
/// `hz` ticks per second.
pub fn interval_elapsed(elapsed_nanos: u128, hz: usize) -> (due: bool)
    ensures
        due == tick_due(elapsed_nanos as int, hz as int),
{
    match elapsed_nanos.checked_mul(hz as u128) {
        Some(product) => product >= 1_000_000_000,
        None => true,
    }
}

/// A countdown timer. It owns the register it drives, so no second timer
/// can take ticks off the same register.
pub struct Timer<F: Fn(u128, u8)> {
    r: Reg8,
    prev: Instant,
    h: usize,
    c: F,
}

impl<F: Fn(u128, u8)> Timer<F> {
    /// The register that the timer drives.
    pub closed spec fn register(&self) -> Reg8 {
        self.r
    }

    /// The number of ticks per second.
    pub closed spec fn frequency(&self) -> usize {
        self.h
    }

    /// The function that is called on each tick.
    pub closed spec fn callback(&self) -> F {
        self.c
    }

    /// The callback accepts every elapsed time and every value.
    pub open spec fn callable(&self) -> bool {
        forall|elapsed_nanos: u128, value: u8|
            call_requires(self.callback(), (elapsed_nanos, value))
    }

    /// The value that a poll pulls: the byte of `bytes` at the register's
    /// index.
    pub open spec fn pulled(&self, bytes: Seq<u8>) -> u8 {
        bytes[self.register().index() as int]
    }

    /// What one poll makes of the timer `self` and the memory `bytes` when
    /// `elapsed_nanos` have passed: it finds `t`, and leaves the timer
    /// `after` and the memory `bytes_after`. On a tick the callback has
    /// returned from a call with `elapsed_nanos` and the value pulled.
    pub open spec fn polled(
        &self,
        bytes: Seq<u8>,
        elapsed_nanos: u128,
        after: Self,
        bytes_after: Seq<u8>,
        t: Tick,
    ) -> bool {
        &&& t == tick_of(self.pulled(bytes), elapsed_nanos as int, self.frequency() as int)
        &&& after.register().value() == value_after(self.pulled(bytes), t)
        &&& after.register().index() == self.register().index()
        &&& after.frequency() == self.frequency()
        &&& after.callback() == self.callback()
        &&& bytes_after == memory_after(bytes, self.register().index() as int, t)
        &&& t is Fired ==> call_ensures(self.callback(), (elapsed_nanos, self.pulled(bytes)), ())
    }

    /// A timer that ticks `h` times per second, drives `r`, and calls `c`
    /// on each tick with the nanoseconds that have passed since the tick
    /// before (or since this call) and the value before the tick. The first
    /// interval starts now.
    pub fn new(h: usize, r: Reg8, c: F) -> (t: Self)
        requires
            forall|elapsed_nanos: u128, value: u8| call_requires(c, (elapsed_nanos, value)),
        ensures
            t.register() == r,
            t.frequency() == h,
            t.callback() == c,
            t.callable(),
    {
        Timer { r, prev: Instant::now(), h, c }
    }

    /// One poll, given the nanoseconds that have passed since the last
    /// tick. The register pulls its value from `m`. If that is zero the
    /// timer has stopped. Else, once the interval has passed, the callback
    /// is called with `elapsed_nanos` and the value, and the register takes
    /// one less and pushes it to `m`.
    pub fn step<const S: usize>(&mut self, m: &mut MemBuf<S>, elapsed_nanos: u128) -> (t: Tick)
        requires
            old(self).callable(),
            old(self).register().index() < S,
        ensures
            old(self).polled(old(m)@, elapsed_nanos, *final(self), final(m)@, t),
            final(m).start_index() == old(m).start_index(),
    {
        self.r.get(m);
        let v: u8 = self.r.get_value();
        if v == 0 {
            return Tick::Stopped;
        }
        if interval_elapsed(elapsed_nanos, self.h) {
            assert(call_requires(old(self).callback(), (elapsed_nanos, v)));
            (self.c)(elapsed_nanos, v);
            self.r.set_value(v - 1);
            self.r.set(m);
            Tick::Fired(v)
        } else {
            Tick::Waiting
        }
    }

    /// One poll against the wall clock: a [`Timer::step`] with the time
    /// that has passed since the last tick. After a tick the next interval
    /// starts. The result says whether the timer is still running: it is
    /// unless the register pulled zero, and then nothing else happens. The
    /// poll that takes the value from one to zero still says that it is
    /// running; the next one says that it is not.
    pub fn update<const S: usize>(&mut self, m: &mut MemBuf<S>) -> (running: bool)
        requires
            old(self).callable(),
            old(self).register().index() < S,
        ensures
            running == (old(self).pulled(old(m)@) != 0),
            exists|elapsed_nanos: u128, t: Tick| #[trigger]
                old(self).polled(old(m)@, elapsed_nanos, *final(self), final(m)@, t),
            !running ==> final(m)@ == old(m)@ && final(self).register().value() == 0,
            final(self).register().value() <= old(self).pulled(old(m)@),
            final(m).start_index() == old(m).start_index(),
            final(self).register().index() == old(self).register().index(),
            final(self).frequency() == old(self).frequency(),
            final(self).callback() == old(self).callback(),
    {
        let since: Duration = self.prev.elapsed();
        let elapsed_nanos: u128 = since.as_nanos();
        let t: Tick = self.step(m, elapsed_nanos);
        let running: bool = match t {
            Tick::Stopped => false,
            Tick::Waiting => true,
            Tick::Fired(_) => {
                self.prev = Instant::now();
                true
            },
        };
        assert(old(self).polled(old(m)@, elapsed_nanos, *self, m@, t));
        running
    }

    /// The value in the register's cache. No memory is read.
    pub fn get_value(&self) -> (v: u8)
        ensures
            v == self.register().value(),
    {
        self.r.get_value()
    }
}

} // verus!
