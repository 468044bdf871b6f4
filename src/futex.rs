use vstd::prelude::*;

verus! {

/// The futex operation that blocks while the word holds an expected value.
pub const FUTEX_WAIT: i32 = 0;

/// The futex operation that wakes threads blocked on a word.
pub const FUTEX_WAKE: i32 = 1;

/// Flag restricting a futex operation to the calling process.
pub const FUTEX_PRIVATE: i32 = 128;

/// The error a failed futex call reported, as far as the protocol tells
/// errors apart.
#[derive(Clone, Copy, Debug, PartialEq, Eq, Structural)]
pub enum Errno {
    /// `EINTR`: a signal arrived while waiting.
    Interrupted,
    /// `EAGAIN`: the word no longer held the expected value.
    ValueChanged,
    /// `ETIMEDOUT`: the timeout elapsed.
    TimedOut,
    /// `EFAULT`: the address does not map to valid memory.
    BadAddress,
    /// Any other error code.
    Other(i32),
}

/// How a return from a futex call is read by the protocol.
#[derive(Clone, Copy, Debug, PartialEq, Eq, Structural)]
pub enum Outcome {
    /// A normal return, or one of the expected errors: nothing to report.
    Benign,
    /// A result the protocol never produces: a broken precondition.
    Unexpected,
}

/// The operation word of a process-private futex wait.
pub fn wait_op() -> (op: i32)
    ensures
        op == FUTEX_WAIT | FUTEX_PRIVATE,
        op == 128,
{
    let op = FUTEX_WAIT | FUTEX_PRIVATE;
    assert(op == 128) by (bit_vector)
        requires
            op == 0i32 | 128i32,
    ;
    op
}

/// The operation word of a process-private futex wake.
pub fn wake_op() -> (op: i32)
    ensures
        op == FUTEX_WAKE | FUTEX_PRIVATE,
        op == 129,
{
    let op = FUTEX_WAKE | FUTEX_PRIVATE;
    assert(op == 129) by (bit_vector)
        requires
            op == 1i32 | 128i32,
    ;
    op
}

/// Whether a failed wait reported an error that normal operation produces:
/// an interruption, a changed word, or, where a timeout was supplied, its
/// expiry.
pub open spec fn wait_error_expected(err: Errno, timed: bool) -> bool {
    match err {
        Errno::Interrupted => true,
        Errno::ValueChanged => true,
        Errno::TimedOut => timed,
        _ => false,
    }
}

/// Reads the result `r` of a futex wait; `err` is the error reported when
/// `r == -1`, and `timed` tells whether a timeout was supplied.
pub fn classify_wait(r: i64, err: Errno, timed: bool) -> (out: Outcome)
    ensures
        out == (if r == 0 || (r == -1 && wait_error_expected(err, timed)) {
            Outcome::Benign
        } else {
            Outcome::Unexpected
        }),
{
    if r == 0 {
        return Outcome::Benign;
    }
    if r != -1 {
        return Outcome::Unexpected;
    }
    match err {
        Errno::Interrupted | Errno::ValueChanged => Outcome::Benign,
        Errno::TimedOut => if timed {
            Outcome::Benign
        } else {
            Outcome::Unexpected
        },
        _ => Outcome::Unexpected,
    }
}

/// Reads the result `r` of a futex wake of one waiter; `err` is the error
/// reported when `r == -1`. No waiter woken, one waiter woken, and an
/// address that no longer maps to memory are all normal.
pub fn classify_wake(r: i64, err: Errno) -> (out: Outcome)
    ensures
        out == (if r == 0 || r == 1 || (r == -1 && err == Errno::BadAddress) {
            Outcome::Benign
        } else {
            Outcome::Unexpected
        }),
{
    if r == 0 || r == 1 {
        Outcome::Benign
    } else if r == -1 && err == Errno::BadAddress {
        Outcome::Benign
    } else {
        Outcome::Unexpected
    }
}

} // verus!
