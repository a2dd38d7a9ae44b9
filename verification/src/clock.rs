//! Points in time, as seconds and nanoseconds since the Unix epoch (UTC).
use vstd::prelude::*;

verus! {

/// A point in time: whole seconds since 1970-01-01T00:00:00Z and the
/// nanoseconds past that second.
#[derive(Clone, Copy, Debug, PartialEq, Eq, Structural)]
pub struct Timestamp {
    pub secs: i64,
    pub nanos: u32,
}

/// `chrono::Utc::now()`, as whole seconds and the nanoseconds past them. The
/// reading depends on the clock, so the contract states only its shape:
/// `Utc::now` is built from the `Duration` since the epoch, whose
/// sub-second nanoseconds are always below 1e9 (no leap second is produced).
#[verifier::external_body]
pub(crate) fn utc_now() -> (r: Timestamp)
    ensures
        r.nanos < 1_000_000_000,
{
    let now = chrono::Utc::now();
    Timestamp { secs: now.timestamp(), nanos: now.timestamp_subsec_nanos() }
}

/// Whole seconds from `earlier` to `later`, rounded towards zero
/// (`chrono`'s `signed_duration_since(..).num_seconds()`).
pub open spec fn seconds_between(earlier: Timestamp, later: Timestamp) -> int {
    let d = later.secs - earlier.secs;
    if d > 0 && later.nanos < earlier.nanos {
        d - 1
    } else if d < 0 && later.nanos > earlier.nanos {
        d + 1
    } else {
        d
    }
}

/// Seconds elapsed from `started` to `now`, never negative.
pub fn elapsed_secs(started: Timestamp, now: Timestamp) -> (r: u64)
    requires
        started.nanos < 1_000_000_000,
        now.nanos < 1_000_000_000,
    ensures
        seconds_between(started, now) <= 0 ==> r == 0,
        seconds_between(started, now) > 0 ==> r == seconds_between(started, now),
{
    let d: i128 = now.secs as i128 - started.secs as i128;
    let s: i128 = if d > 0 && now.nanos < started.nanos {
        d - 1
    } else if d < 0 && now.nanos > started.nanos {
        d + 1
    } else {
        d
    };
    if s <= 0 {
        0
    } else if s > u64::MAX as i128 {
        u64::MAX
    } else {
        s as u64
    }
}

} // verus!
