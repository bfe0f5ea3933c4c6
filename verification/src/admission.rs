//! The admission semaphore: as many permits as calls may run at once. Who
//! waits for a permit, and in which order, is the semaphore's own business.

use vstd::prelude::*;

use tokio::sync::Semaphore;

use crate::config::State;

verus! {

/// `tokio::sync::Semaphore`, carried as it is.
#[verifier::external_type_specification]
#[verifier::external_body]
pub struct ExSemaphore(tokio::sync::Semaphore);

/// The number of permits that a semaphore was made with.
pub uninterp spec fn permits_at_start(semaphore: Semaphore) -> nat;

/// The most permits that a semaphore can be made with.
pub const MAX_PERMITS: usize = usize::MAX / 8;

/// `tokio::sync::Semaphore::new`: a semaphore with `permits` permits, all of
/// them free. The function stops the program for more than `MAX_PERMITS`
/// permits, so such a number is not admitted.
#[verifier::external_body]
pub(crate) fn new_semaphore(permits: usize) -> (semaphore: Semaphore)
    requires
        permits <= MAX_PERMITS,
    ensures
        permits_at_start(semaphore) == permits,
{
    Semaphore::new(permits)
}

/// The semaphore for these settings: it has one permit for each call that
/// may run at once, so at least one. Settings that were accepted always have
/// their semaphore.
pub fn admission_semaphore(state: &State) -> (semaphore: Semaphore)
    ensures
        permits_at_start(semaphore) == state@.max_concurrency,
        1 <= permits_at_start(semaphore) <= MAX_PERMITS,
{
    new_semaphore(state.max_concurrency())
}

} // verus!
