use vstd::prelude::*;
use core::sync::atomic::{AtomicI32, Ordering};
use crate::timeout::{to_timespec, Timespec, WaitTime};

verus! {

/// Value of the parking word when the thread is not parked, or was woken.
pub const UNPARKED: i32 = 0;

/// Value that `prepare_park` writes: the thread is parked or about to park.
pub const PARKED: i32 = 1;

/// Whether a parking word holds the parked state: any nonzero value does.
pub open spec fn is_parked(w: i32) -> bool {
    w != UNPARKED
}

/// What an untimed park does after reading the parking word.
#[derive(Clone, Copy, Debug, PartialEq, Eq, Structural)]
pub enum ParkStep {
    /// The word is unparked: return.
    Done,
    /// The word is parked: block on it, then read it again.
    Wait,
}

/// What a park with a deadline does after reading the parking word and the
/// time left until the deadline.
#[derive(Clone, Copy, Debug, PartialEq, Eq, Structural)]
pub enum TimedStep {
    /// The word is unparked: return `true`.
    Woken,
    /// The word is parked and the deadline has passed: return `false`.
    TimedOut,
    /// Block on the word for at most this long, then read it again.
    WaitFor(Timespec),
    /// The time left does not fit the kernel's timeout: park without a
    /// deadline, then return `true`.
    WaitIndefinitely,
}

/// The step of an untimed park on word value `w`.
pub open spec fn park_step_spec(w: i32) -> ParkStep {
    if is_parked(w) {
        ParkStep::Wait
    } else {
        ParkStep::Done
    }
}

/// The step of a timed park on word value `w` with `remaining` time left.
/// The word is checked first, so an unpark seen at the deadline wins.
pub open spec fn timed_step_spec(w: i32, remaining: WaitTime) -> TimedStep {
    if !is_parked(w) {
        TimedStep::Woken
    } else if remaining.is_zero() {
        TimedStep::TimedOut
    } else if !remaining.fits_kernel() {
        TimedStep::WaitIndefinitely
    } else {
        TimedStep::WaitFor(remaining.as_timespec())
    }
}

/// Decides the step of an untimed park from the word value `w` it read.
pub fn park_step(w: i32) -> (r: ParkStep)
    ensures
        r == park_step_spec(w),
{
    if w != UNPARKED {
        ParkStep::Wait
    } else {
        ParkStep::Done
    }
}

/// Decides the step of a timed park from the word value `w` it read and the
/// time left until its deadline.
pub fn timed_step(w: i32, remaining: WaitTime) -> (r: TimedStep)
    ensures
        r == timed_step_spec(w, remaining),
{
    if w == UNPARKED {
        return TimedStep::Woken;
    }
    if remaining.secs == 0 && remaining.nanos == 0 {
        return TimedStep::TimedOut;
    }
    match to_timespec(remaining) {
        Some(ts) => TimedStep::WaitFor(ts),
        None => TimedStep::WaitIndefinitely,
    }
}

/// Whether a parking word value read after a timed park reports a genuine
/// timeout, rather than an unpark that raced with it.
pub fn word_timed_out(w: i32) -> (r: bool)
    ensures
        r == is_parked(w),
{
    w != UNPARKED
}

/// Puts one thread to sleep until another wakes it. The parking word is the
/// only state shared with other threads.
pub struct ThreadParker {
    futex: AtomicI32,
}

/// The right to wake one parked thread, taken while the queue lock is held
/// and used after it is released.
pub struct UnparkHandle<'a> {
    futex: &'a AtomicI32,
}

impl ThreadParker {
    /// A parker whose word starts unparked.
    pub fn new() -> (p: ThreadParker) {
        ThreadParker { futex: AtomicI32::new(UNPARKED) }
    }

    /// Marks the parker as parked. Called by the waiting thread while it holds
    /// the queue lock, before its node is published. A relaxed store is
    /// enough: the queue lock orders it for every reader.
    pub fn prepare_park(&self) {
        self.futex.store(PARKED, Ordering::Relaxed);
    }

    /// Whether the word still holds the parked state. Called under the queue
    /// lock after a timed park reported a timeout, to tell it from a racing
    /// unpark.
    pub fn timed_out(&self) -> bool {
        word_timed_out(self.futex.load(Ordering::Relaxed))
    }

    /// Reads the word with acquire ordering, so that once it is seen unparked
    /// every write made before the matching `unpark_lock` is visible, and
    /// decides the next step of an untimed park.
    pub fn park_step(&self) -> ParkStep {
        park_step(self.futex.load(Ordering::Acquire))
    }

    /// Reads the word with acquire ordering and decides the next step of a
    /// park whose deadline is `remaining` away. Whatever the word held, the
    /// step either reports a wake or is the one owed to a parked word.
    pub fn timed_step(&self, remaining: WaitTime) -> (r: TimedStep)
        ensures
            r == TimedStep::Woken || r == timed_step_spec(PARKED, remaining),
    {
        timed_step(self.futex.load(Ordering::Acquire), remaining)
    }

    /// Clears the word with release ordering and returns the handle that
    /// wakes the thread. Called under the queue lock, at most once per park.
    pub fn unpark_lock(&self) -> UnparkHandle<'_> {
        self.futex.store(UNPARKED, Ordering::Release);
        UnparkHandle { futex: &self.futex }
    }

    /// The parking word, whose address the futex calls use.
    pub fn word(&self) -> &AtomicI32 {
        &self.futex
    }
}

impl<'a> UnparkHandle<'a> {
    /// The parking word of the thread to wake.
    pub fn word(&self) -> &'a AtomicI32 {
        self.futex
    }
}

} // verus!
