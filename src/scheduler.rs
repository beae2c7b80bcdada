//! Choosing the scheduler that a unit of work runs on.
use tokio::runtime::Handle;
use vstd::prelude::*;

verus! {

#[verifier::external_type_specification]
#[verifier::external_body]
pub struct ExHandle(tokio::runtime::Handle);

/// Where a task was sent: to the scheduler that was active on the spawning
/// thread, or to the fallback scheduler.
#[derive(Clone, Copy, Debug, PartialEq, Eq, Structural)]
pub enum SchedulerSource {
    Active,
    Fallback,
}

/// Relies on tokio's `Handle::try_current`: the handle of the runtime that is
/// active on this thread, if one is. It never panics; what it returns depends
/// on the calling context, so nothing is promised of it.
#[verifier::external_body]
pub(crate) fn active_scheduler() -> (r: Option<Handle>) {
    Handle::try_current().ok()
}

/// Picks the scheduler for a new task. `current` is the scheduler active on
/// the calling thread, if any; `fallback` yields the fallback scheduler and is
/// called only when there is none. Its precondition is asked for only in that
/// case, so a body that called it while a scheduler is active would not verify.
pub fn resolve_scheduler<G>(current: Option<Handle>, fallback: G) -> (r: (Handle, SchedulerSource))
    where
        G: FnOnce() -> Handle,
    requires
        current is None ==> fallback.requires(()),
    ensures
        match current {
            Some(h) => r.0 == h && r.1 == SchedulerSource::Active,
            None => fallback.ensures((), r.0) && r.1 == SchedulerSource::Fallback,
        },
{
    match current {
        Some(h) => (h, SchedulerSource::Active),
        None => (fallback(), SchedulerSource::Fallback),
    }
}

} // verus!
