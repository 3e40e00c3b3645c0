//! The machine-global benchmark lock: the arithmetic of its wait deadline.
//! Taking and releasing the lock is done by the caller.
use vstd::prelude::*;

verus! {

/// Nanoseconds in a second.
pub const NANOS_PER_SEC: i64 = 1_000_000_000i64;

/// The absolute deadline `timeout` after `now`, as seconds and
/// nanoseconds: the nanoseconds carried into the seconds when they reach a
/// full second, and the seconds saturated at the largest representable
/// time.
pub open spec fn spec_deadline(now_sec: int, now_nsec: int, timeout_secs: int, timeout_nanos: int) -> (
    int,
    int,
) {
    let secs = now_sec + timeout_secs;
    let nanos = now_nsec + timeout_nanos;
    let (secs, nanos) = if nanos >= 1_000_000_000 {
        (secs + 1, nanos - 1_000_000_000)
    } else {
        (secs, nanos)
    };
    (if secs > i64::MAX {
        i64::MAX as int
    } else {
        secs
    }, nanos)
}

/// The deadline for waiting `timeout_secs` seconds and `timeout_nanos`
/// nanoseconds from the clock reading `now_sec`/`now_nsec`.
pub fn abs_deadline(now_sec: i64, now_nsec: i64, timeout_secs: u64, timeout_nanos: u32) -> (r: (
    i64,
    i64,
))
    requires
        0 <= now_nsec < NANOS_PER_SEC,
        timeout_nanos < 1_000_000_000,
    ensures
        (r.0 as int, r.1 as int) == spec_deadline(
            now_sec as int,
            now_nsec as int,
            timeout_secs as int,
            timeout_nanos as int,
        ),
        0 <= r.1 < NANOS_PER_SEC,
{
    let mut secs: i128 = now_sec as i128 + timeout_secs as i128;
    let mut nanos: i128 = now_nsec as i128 + timeout_nanos as i128;
    if nanos >= 1_000_000_000 {
        secs = secs + 1;
        nanos = nanos - 1_000_000_000;
    }
    let tv_sec: i64 = if secs > i64::MAX as i128 {
        i64::MAX
    } else {
        secs as i64
    };
    (tv_sec, nanos as i64)
}

/// A deadline that is not saturated lies exactly `timeout` after `now`,
/// counted in nanoseconds.
pub proof fn lemma_deadline_exact(now_sec: int, now_nsec: int, timeout_secs: int, timeout_nanos: int)
    requires
        0 <= now_nsec < 1_000_000_000,
        0 <= timeout_nanos < 1_000_000_000,
        now_sec + timeout_secs + 1 <= i64::MAX,
    ensures
        ({
            let (s, n) = spec_deadline(now_sec, now_nsec, timeout_secs, timeout_nanos);
            s * 1_000_000_000 + n == (now_sec + timeout_secs) * 1_000_000_000 + now_nsec
                + timeout_nanos
        }),
{
}

/// Whether a lock call succeeded: `rc` zero.
pub fn lock_call_ok(rc: i32) -> (r: bool)
    ensures
        r == (rc == 0),
{
    rc == 0
}

} // verus!
