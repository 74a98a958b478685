//! Time windows: every flow is filed under the start of the 300-second
//! window that holds its start time.

use vstd::prelude::*;

verus! {

/// Width in seconds of one aggregation window.
pub const WINDOW_SECONDS: u64 = 300;

/// Start of the window that holds second `t`: `t` rounded down to a multiple
/// of the window width.
pub open spec fn bucket_of(t: nat) -> nat {
    (t / 300) * 300
}

/// Aligns a flow start time down to the start of its window.
pub fn time_bucket(t: u64) -> (b: u64)
    ensures
        b == bucket_of(t as nat),
        b <= t,
{
    let q: u64 = t / WINDOW_SECONDS;
    q * WINDOW_SECONDS
}

/// A window start is a multiple of the window width, and the window that
/// starts there holds `t`.
pub proof fn bucket_is_aligned(t: nat)
    ensures
        bucket_of(t) % 300 == 0,
        bucket_of(t) <= t < bucket_of(t) + 300,
{
}

/// Bucketing a window start gives the same window start again.
pub proof fn bucket_is_idempotent(t: nat)
    ensures
        bucket_of(bucket_of(t)) == bucket_of(t),
{
}

/// A later time never falls into an earlier window.
pub proof fn bucket_is_monotonic(t1: nat, t2: nat)
    requires
        t1 <= t2,
    ensures
        bucket_of(t1) <= bucket_of(t2),
{
}

/// Two times bucket identically exactly when the second lies in the window
/// of the first.
pub proof fn bucket_same_window(t1: nat, t2: nat)
    ensures
        bucket_of(t1) == bucket_of(t2) <==> bucket_of(t1) <= t2 < bucket_of(t1) + 300,
{
}

/// Two times exactly one window width apart lie in neighbouring windows, so
/// they never share a bucket.
pub proof fn bucket_one_window_apart(t: nat)
    ensures
        bucket_of(t + 300) == bucket_of(t) + 300,
        bucket_of(t + 300) != bucket_of(t),
{
}

} // verus!
