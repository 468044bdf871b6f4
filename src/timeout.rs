use vstd::prelude::*;

verus! {

/// Time left until a deadline, as whole seconds and the nanoseconds beyond
/// them.
#[derive(Clone, Copy, Debug, PartialEq, Eq, Structural)]
pub struct WaitTime {
    pub secs: u64,
    pub nanos: u32,
}

/// A relative timeout in the kernel's representation.
#[derive(Clone, Copy, Debug, PartialEq, Eq, Structural)]
pub struct Timespec {
    pub tv_sec: libc::time_t,
    pub tv_nsec: libc::c_long,
}

impl WaitTime {
    /// Whether no time is left, i.e. the deadline has been reached.
    pub open spec fn is_zero(self) -> bool {
        self.secs == 0 && self.nanos == 0
    }

    /// Whether the seconds fit the kernel's `time_t`.
    pub open spec fn fits_kernel(self) -> bool {
        self.secs <= libc::time_t::MAX
    }

    /// The same span in the kernel's representation, where it fits.
    pub open spec fn as_timespec(self) -> Timespec {
        Timespec { tv_sec: self.secs as libc::time_t, tv_nsec: self.nanos as libc::c_long }
    }
}

/// Converts a remaining wait into the kernel's representation; `None` where
/// the seconds overflow `time_t`, so that the caller waits without a timeout.
pub fn to_timespec(remaining: WaitTime) -> (r: Option<Timespec>)
    ensures
        r is None <==> !remaining.fits_kernel(),
        r is Some ==> r->0 == remaining.as_timespec(),
        r is Some ==> r->0.tv_sec == remaining.secs && r->0.tv_nsec == remaining.nanos,
{
    if remaining.secs > libc::time_t::MAX as u64 {
        None
    } else {
        Some(
            Timespec {
                tv_sec: remaining.secs as libc::time_t,
                tv_nsec: remaining.nanos as libc::c_long,
            },
        )
    }
}

} // verus!
