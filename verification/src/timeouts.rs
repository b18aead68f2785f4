//! The timed-wait arithmetic of the condition variables.
//!
//! A timed wait turns a relative duration into an absolute deadline on the
//! monotonic clock. The second count saturates at the largest representable
//! time; when the sum overflows, the deadline is the largest timespec, which
//! is allowed because spurious wakeups are permitted and callers re-check.

use vstd::prelude::*;

verus! {

pub const NANOS_PER_SEC: u32 = 1_000_000_000;

/// The largest representable timespec: the deadline used when the requested
/// duration does not fit.
pub const TIMESPEC_MAX_SEC: i64 = 0x7fff_ffff_ffff_ffff;

pub const TIMESPEC_MAX_NSEC: u32 = 999_999_999;

/// A duration's second count clamped into the time type.
pub fn saturating_cast_to_time_t(value: u64) -> (r: i64)
    ensures
        r == if value > i64::MAX {
            i64::MAX
        } else {
            value as i64
        },
{
    if value > 0x7fff_ffff_ffff_ffff {
        i64::MAX
    } else {
        value as i64
    }
}

/// The absolute deadline `now + dur` as (seconds, nanoseconds), with the
/// nanosecond field normalized below one second and the whole value saturated
/// to the largest timespec on overflow.
pub fn condvar_deadline(now_sec: i64, now_nsec: u32, dur_secs: u64, dur_nanos: u32) -> (r: (
    i64,
    u32,
))
    requires
        now_nsec < NANOS_PER_SEC,
        dur_nanos < NANOS_PER_SEC,
    ensures
        ({
            let total_nsec = dur_nanos + now_nsec;
            let sat = if dur_secs > i64::MAX {
                i64::MAX as int
            } else {
                dur_secs as int
            };
            let carry = total_nsec / (NANOS_PER_SEC as int);
            let total_sec = sat + carry + now_sec;
            if sat + carry <= i64::MAX && i64::MIN <= total_sec <= i64::MAX {
                r.0 == total_sec && r.1 == total_nsec % (NANOS_PER_SEC as int)
            } else {
                r.0 == TIMESPEC_MAX_SEC && r.1 == TIMESPEC_MAX_NSEC
            }
        }),
{
    let nsec: u32 = dur_nanos + now_nsec;
    let sat = saturating_cast_to_time_t(dur_secs);
    let carry: i64 = (nsec / NANOS_PER_SEC) as i64;
    let rem: u32 = nsec % NANOS_PER_SEC;
    match sat.checked_add(carry) {
        Some(s1) => match s1.checked_add(now_sec) {
            Some(s2) => (s2, rem),
            None => (TIMESPEC_MAX_SEC, TIMESPEC_MAX_NSEC),
        },
        None => (TIMESPEC_MAX_SEC, TIMESPEC_MAX_NSEC),
    }
}

/// Whether a timed wait was notified before the deadline: the wait call
/// answers zero on notification and a timeout code otherwise.
pub fn wait_was_notified(code: i32) -> (r: bool)
    ensures
        r == (code == 0),
{
    code == 0
}

} // verus!
