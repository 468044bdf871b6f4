//! The parking protocol: a per-waiter parking word, the decisions taken
//! around the futex wait/wake pair, and the conversion of a remaining wait
//! into the kernel's time representation.

pub mod futex;
pub mod parker;
pub mod protocol;
pub mod timeout;

pub use futex::{classify_wait, classify_wake, wait_op, wake_op, Errno, Outcome};
pub use parker::{
    park_step, timed_step, word_timed_out, ParkStep, ThreadParker, TimedStep, UnparkHandle,
};
pub use timeout::{to_timespec, Timespec, WaitTime};
