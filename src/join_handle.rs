//! A single-use handle on a spawned task, and what joining it gives back.
use crate::scheduler::{active_scheduler, resolve_scheduler, SchedulerSource};
use std::future::Future;
use tokio::runtime::Handle;
use tokio::task::{JoinError, JoinHandle};
use vstd::prelude::*;

verus! {

#[verifier::external_type_specification]
#[verifier::external_body]
#[verifier::reject_recursive_types(T)]
pub struct ExJoinHandle<T>(tokio::task::JoinHandle<T>);

#[verifier::external_type_specification]
#[verifier::external_body]
pub struct ExJoinError(tokio::task::JoinError);

/// How a joined task ended: with its value, or with the fault that stopped
/// it (a panic, or a cancellation by the runtime), carried as tokio gave it.
#[derive(Debug)]
pub enum JoinOutcome<T> {
    Completed(T),
    Faulted(JoinError),
}

impl<T> JoinOutcome<T> {
    /// Reads what tokio reports for a finished task. A task's fault is never
    /// turned into a value: it comes back as `Faulted` with tokio's error.
    pub fn from_join(result: Result<T, JoinError>) -> (r: Self)
        ensures
            match result {
                Ok(v) => r == JoinOutcome::Completed(v),
                Err(e) => r == JoinOutcome::<T>::Faulted(e),
            },
    {
        match result {
            Ok(v) => JoinOutcome::Completed(v),
            Err(e) => JoinOutcome::Faulted(e),
        }
    }

    /// Whether the task ended with a fault.
    pub fn is_faulted(&self) -> (r: bool)
        ensures
            r == (self is Faulted),
    {
        match self {
            JoinOutcome::Completed(_) => false,
            JoinOutcome::Faulted(_) => true,
        }
    }
}

/// A handle on one spawned unit of work. It owns tokio's join handle for the
/// task and records which scheduler the task was sent to. Taking the join
/// handle out consumes it, so a task is joined at most once.
#[verifier::reject_recursive_types(T)]
pub struct AsyncJoinHandle<T> {
    task: JoinHandle<T>,
    source: SchedulerSource,
    scheduler: Ghost<Handle>,
}

impl<T> AsyncJoinHandle<T> {
    /// The tokio join handle inside.
    pub closed spec fn task(&self) -> JoinHandle<T> {
        self.task
    }

    /// The scheduler the task was handed to; only `spawn_on`, which makes the
    /// spawn, sets it.
    pub closed spec fn scheduler(&self) -> Handle {
        self.scheduler@
    }

    /// Which scheduler the task was sent to.
    pub closed spec fn source_spec(&self) -> SchedulerSource {
        self.source
    }

    /// Relies on tokio's `Handle::spawn`: the future is spawned onto the
    /// executor of the runtime behind `h`, and the call returns its join
    /// handle without blocking. The handle records `h` as the task's scheduler.
    #[verifier::external_body]
    fn spawn_on<F>(h: Handle, fut: F, source: SchedulerSource) -> (r: Self)
        where
            F: Future<Output = T> + Send + 'static,
            T: Send + 'static,
        ensures
            r.scheduler() == h,
            r.source_spec() == source,
    {
        let task = h.spawn(fut);
        AsyncJoinHandle { task, source, scheduler: Ghost(h) }
    }

    /// Spawns `fut` on `current`, the scheduler active on the calling thread,
    /// or, where that is `None`, on the scheduler that `fallback` yields.
    pub fn spawn_with<F, G>(current: Option<Handle>, fut: F, fallback: G) -> (r: Self)
        where
            F: Future<Output = T> + Send + 'static,
            T: Send + 'static,
            G: FnOnce() -> Handle,
        requires
            current is None ==> fallback.requires(()),
        ensures
            match current {
                Some(h) => r.scheduler() == h && r.source_spec() == SchedulerSource::Active,
                None => fallback.ensures((), r.scheduler()) && r.source_spec()
                    == SchedulerSource::Fallback,
            },
    {
        let (h, source) = resolve_scheduler(current, fallback);
        AsyncJoinHandle::spawn_on(h, fut, source)
    }

    /// Spawns `fut` on the scheduler active on the calling thread; where no
    /// scheduler is active, `fallback` is called once to supply one.
    pub fn spawn<F, G>(fut: F, fallback: G) -> (r: Self)
        where
            F: Future<Output = T> + Send + 'static,
            T: Send + 'static,
            G: FnOnce() -> Handle,
        requires
            fallback.requires(()),
        ensures
            r.source_spec() == SchedulerSource::Active || (r.source_spec()
                == SchedulerSource::Fallback && fallback.ensures((), r.scheduler())),
    {
        AsyncJoinHandle::spawn_with(active_scheduler(), fut, fallback)
    }

    /// Which scheduler the task was sent to.
    pub fn source(&self) -> (r: SchedulerSource)
        ensures
            r == self.source_spec(),
    {
        self.source
    }

    /// Gives up the handle for tokio's join handle, to be awaited once.
    pub fn into_inner(self) -> (r: JoinHandle<T>)
        ensures
            r == self.task(),
    {
        self.task
    }
}

} // verus!
