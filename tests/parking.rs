use parking_core::futex::{FUTEX_PRIVATE, FUTEX_WAIT, FUTEX_WAKE};
use parking_core::parker::{PARKED, UNPARKED};
use parking_core::{
    classify_wait, classify_wake, park_step, timed_step, to_timespec, wait_op, wake_op,
    word_timed_out, Errno, Outcome, ParkStep, ThreadParker, TimedStep, Timespec, WaitTime,
};
use std::sync::atomic::Ordering;

fn zero() -> WaitTime {
    WaitTime { secs: 0, nanos: 0 }
}

#[test]
fn new_parker_is_unparked() {
    let p = ThreadParker::new();
    assert!(!p.timed_out());
    assert_eq!(p.word().load(Ordering::SeqCst), UNPARKED);
    assert_eq!(p.park_step(), ParkStep::Done);
    assert_eq!(p.timed_step(zero()), TimedStep::Woken);
}

#[test]
fn prepare_park_sets_parked_word() {
    let p = ThreadParker::new();
    p.prepare_park();
    assert_eq!(p.word().load(Ordering::SeqCst), PARKED);
    assert!(p.timed_out());
    assert_eq!(p.park_step(), ParkStep::Wait);
}

#[test]
fn fresh_parker_times_out_after_prepare() {
    let p = ThreadParker::new();
    p.prepare_park();
    assert_eq!(p.timed_step(zero()), TimedStep::TimedOut);
    assert!(p.timed_out());
}

#[test]
fn timed_park_waits_for_remaining_time() {
    let p = ThreadParker::new();
    p.prepare_park();
    let left = WaitTime { secs: 0, nanos: 50_000_000 };
    assert_eq!(
        p.timed_step(left),
        TimedStep::WaitFor(Timespec { tv_sec: 0, tv_nsec: 50_000_000 })
    );
}

#[test]
fn unpark_lock_clears_word_and_hands_it_out() {
    let p = ThreadParker::new();
    p.prepare_park();
    let h = p.unpark_lock();
    assert_eq!(h.word().load(Ordering::SeqCst), UNPARKED);
    assert!(std::ptr::eq(h.word(), p.word()));
    assert!(!p.timed_out());
    assert_eq!(p.park_step(), ParkStep::Done);
    assert_eq!(p.timed_step(zero()), TimedStep::Woken);
}

#[test]
fn unpark_lock_twice_stays_unparked() {
    let p = ThreadParker::new();
    p.prepare_park();
    let _first = p.unpark_lock();
    let second = p.unpark_lock();
    assert_eq!(second.word().load(Ordering::SeqCst), UNPARKED);
    assert!(!p.timed_out());
}

#[test]
fn unpark_at_deadline_wins_over_timeout() {
    assert_eq!(timed_step(UNPARKED, zero()), TimedStep::Woken);
    assert_eq!(timed_step(PARKED, zero()), TimedStep::TimedOut);
    assert_eq!(timed_step(7, zero()), TimedStep::TimedOut);
}

#[test]
fn overflowing_deadline_parks_indefinitely() {
    let far = WaitTime { secs: u64::MAX, nanos: 0 };
    assert_eq!(timed_step(PARKED, far), TimedStep::WaitIndefinitely);
    assert_eq!(timed_step(UNPARKED, far), TimedStep::Woken);
}

#[test]
fn three_hundred_years_still_fits() {
    let secs: u64 = 300 * 365 * 24 * 3600;
    let t = to_timespec(WaitTime { secs, nanos: 5 }).unwrap();
    assert_eq!(t.tv_sec as u64, secs);
    assert_eq!(t.tv_nsec, 5);
}

#[test]
fn timespec_conversion_edges() {
    let max = i64::MAX as u64;
    assert_eq!(
        to_timespec(WaitTime { secs: max, nanos: 999_999_999 }),
        Some(Timespec { tv_sec: i64::MAX, tv_nsec: 999_999_999 })
    );
    assert_eq!(to_timespec(WaitTime { secs: max + 1, nanos: 0 }), None);
    assert_eq!(
        to_timespec(WaitTime { secs: 2, nanos: 1 }),
        Some(Timespec { tv_sec: 2, tv_nsec: 1 })
    );
}

#[test]
fn park_step_reads_any_nonzero_as_parked() {
    assert_eq!(park_step(0), ParkStep::Done);
    assert_eq!(park_step(1), ParkStep::Wait);
    assert_eq!(park_step(-1), ParkStep::Wait);
    assert!(!word_timed_out(0));
    assert!(word_timed_out(1));
    assert!(word_timed_out(i32::MIN));
}

#[test]
fn futex_operation_words() {
    assert_eq!(wait_op(), FUTEX_WAIT | FUTEX_PRIVATE);
    assert_eq!(wait_op(), 128);
    assert_eq!(wake_op(), FUTEX_WAKE | FUTEX_PRIVATE);
    assert_eq!(wake_op(), 129);
}

#[test]
fn wait_results_classified() {
    assert_eq!(classify_wait(0, Errno::Other(0), false), Outcome::Benign);
    assert_eq!(classify_wait(-1, Errno::Interrupted, false), Outcome::Benign);
    assert_eq!(classify_wait(-1, Errno::ValueChanged, false), Outcome::Benign);
    assert_eq!(classify_wait(-1, Errno::TimedOut, true), Outcome::Benign);
    assert_eq!(classify_wait(-1, Errno::TimedOut, false), Outcome::Unexpected);
    assert_eq!(classify_wait(-1, Errno::BadAddress, true), Outcome::Unexpected);
    assert_eq!(classify_wait(-1, Errno::Other(22), true), Outcome::Unexpected);
    assert_eq!(classify_wait(2, Errno::Interrupted, true), Outcome::Unexpected);
}

#[test]
fn wake_of_nothing_is_benign() {
    assert_eq!(classify_wake(0, Errno::Other(0)), Outcome::Benign);
    assert_eq!(classify_wake(1, Errno::Other(0)), Outcome::Benign);
    assert_eq!(classify_wake(-1, Errno::BadAddress), Outcome::Benign);
    assert_eq!(classify_wake(-1, Errno::Interrupted), Outcome::Unexpected);
    assert_eq!(classify_wake(2, Errno::BadAddress), Outcome::Unexpected);
}
