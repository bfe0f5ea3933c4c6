//! The time budget of a synthesis call. Going over it is reported, never
//! enforced.

use vstd::prelude::*;

verus! {

/// The budget of one call, in whole seconds.
pub const BUDGET_SECS: u64 = 4;

/// The nanoseconds in a second.
pub const NANOS_PER_SEC: u64 = 1_000_000_000;

/// The length of a duration of `secs` seconds and `subsec_nanos`
/// nanoseconds, in nanoseconds.
pub open spec fn total_nanos(secs: u64, subsec_nanos: u32) -> int {
    secs * NANOS_PER_SEC + subsec_nanos
}

/// Whether a duration of `secs` seconds and `subsec_nanos` nanoseconds is
/// longer than the budget, however the two share the length.
pub open spec fn over_budget(secs: u64, subsec_nanos: u32) -> bool {
    total_nanos(secs, subsec_nanos) > BUDGET_SECS * NANOS_PER_SEC
}

/// Tells whether a call that took this long went over the budget.
pub fn exceeds_budget(secs: u64, subsec_nanos: u32) -> (exceeded: bool)
    ensures
        exceeded == over_budget(secs, subsec_nanos),
{
    if secs >= BUDGET_SECS {
        secs > BUDGET_SECS || subsec_nanos > 0
    } else {
        let short: u64 = (BUDGET_SECS - secs) * NANOS_PER_SEC;
        subsec_nanos as u64 > short
    }
}

/// The indicator that some call went over the budget, after a call that
/// took this long: once set it stays set.
pub fn indicator_after(hit_any_deadline: bool, secs: u64, subsec_nanos: u32) -> (hit: bool)
    ensures
        hit == (hit_any_deadline || over_budget(secs, subsec_nanos)),
        hit_any_deadline ==> hit,
{
    hit_any_deadline || exceeds_budget(secs, subsec_nanos)
}

} // verus!
