//! The parking word as a state machine, and the laws of the protocol over it.

use vstd::prelude::*;
use crate::parker::{
    is_parked, park_step_spec, timed_step_spec, ParkStep, TimedStep, PARKED, UNPARKED,
};
use crate::timeout::WaitTime;

verus! {

/// A write to the parking word made by the protocol.
#[derive(Clone, Copy, Debug, PartialEq, Eq, Structural)]
pub enum WordWrite {
    /// `prepare_park`, by the waiting thread.
    PreparePark,
    /// `unpark_lock`, by the waking thread.
    UnparkLock,
}

/// The value a write stores.
pub open spec fn written(op: WordWrite) -> i32 {
    match op {
        WordWrite::PreparePark => PARKED,
        WordWrite::UnparkLock => UNPARKED,
    }
}

/// The word after the writes `ops`, in order, starting from `init`: the
/// value of the last write, or `init` if there was none.
pub open spec fn word_after(init: i32, ops: Seq<WordWrite>) -> i32 {
    if ops.len() == 0 {
        init
    } else {
        written(ops.last())
    }
}

/// No lost wakeup: once an `unpark_lock` has followed the last
/// `prepare_park`, the park loop's next check of the word returns, timed or
/// not, whatever the time left.
pub proof fn lemma_no_lost_wakeup(init: i32, ops: Seq<WordWrite>, i: int, remaining: WaitTime)
    requires
        0 <= i < ops.len(),
        ops[i] == WordWrite::UnparkLock,
        forall|j: int| i < j < ops.len() ==> ops[j] != WordWrite::PreparePark,
    ensures
        word_after(init, ops) == UNPARKED,
        park_step_spec(word_after(init, ops)) == ParkStep::Done,
        timed_step_spec(word_after(init, ops), remaining) == TimedStep::Woken,
{
    let last = ops.len() - 1;
    if last > i {
        assert(ops[last] != WordWrite::PreparePark);
    }
}

/// Timeout correctness: with no unpark after the last `prepare_park`, a timed
/// park reports a timeout exactly when no time is left, and the word then
/// still reads as timed out.
pub proof fn lemma_timeout_correct(init: i32, ops: Seq<WordWrite>, remaining: WaitTime)
    requires
        ops.len() > 0,
        ops.last() == WordWrite::PreparePark,
    ensures
        is_parked(word_after(init, ops)),
        (timed_step_spec(word_after(init, ops), remaining) == TimedStep::TimedOut)
            <==> remaining.is_zero(),
{
}

/// Race resolution: a timed park never reports a timeout while the word reads
/// unparked, and a reported timeout leaves the word reading as timed out.
pub proof fn lemma_race_resolution(w: i32, remaining: WaitTime)
    ensures
        !is_parked(w) ==> timed_step_spec(w, remaining) == TimedStep::Woken,
        timed_step_spec(w, remaining) == TimedStep::TimedOut ==> is_parked(w)
            && remaining.is_zero(),
{
}

/// Overflow fallback: where the time left does not fit the kernel's timeout,
/// a parked word leads to a park without deadline, never to an error or a
/// timeout.
pub proof fn lemma_overflow_fallback(w: i32, remaining: WaitTime)
    requires
        is_parked(w),
        !remaining.fits_kernel(),
    ensures
        timed_step_spec(w, remaining) == TimedStep::WaitIndefinitely,
{
}

/// A second `unpark_lock` with no park in between changes nothing: the word
/// stays unparked.
pub proof fn lemma_unpark_lock_idempotent(init: i32, ops: Seq<WordWrite>)
    ensures
        word_after(init, ops.push(WordWrite::UnparkLock).push(WordWrite::UnparkLock))
            == word_after(init, ops.push(WordWrite::UnparkLock)),
        word_after(init, ops.push(WordWrite::UnparkLock)) == UNPARKED,
{
}

/// A fresh parker after `prepare_park` is parked: an untimed park blocks, and
/// a timed park whose deadline has passed times out.
pub proof fn lemma_fresh_parker_parks(remaining: WaitTime)
    requires
        remaining.is_zero(),
    ensures
        is_parked(word_after(UNPARKED, seq![WordWrite::PreparePark])),
        park_step_spec(word_after(UNPARKED, seq![WordWrite::PreparePark])) == ParkStep::Wait,
        timed_step_spec(word_after(UNPARKED, seq![WordWrite::PreparePark]), remaining)
            == TimedStep::TimedOut,
{
}

} // verus!
