//! The bridge between the request pipeline and blocking work.
//!
//! A storage call blocks, so it runs on a worker outside the threads that
//! serve requests, and the request waits for it without holding anyone up.
//! The worker pool and the waiting are the caller's. This module follows
//! one unit of work through its life and decides what the waiting request
//! is told: the work's own result, or that the worker died.
//!
//! A unit of work starts at most once. Once started it runs to its end,
//! whether or not the request that asked for it is still there; if it is
//! not, the result is thrown away.

use crate::errors::{
    internal_text, normalize, normalized, single, ApiError, ErrorKind, Failure,
};
use vstd::prelude::*;

verus! {

/// How offloaded work can fail.
#[derive(Debug, PartialEq, Eq)]
pub enum BridgeError<E> {
    /// The work ended abnormally and left no result.
    WorkerPanicked,
    /// The work ran and failed in its own terms.
    Inner(E),
}

/// How far a unit of work has come.
#[derive(Clone, Copy, Debug, PartialEq, Eq, Structural)]
pub enum Phase {
    /// Handed to the worker pool, not yet started.
    Queued,
    /// A worker is running it.
    Running,
    /// It has ended, with a result or abnormally.
    Finished,
}

/// One unit of offloaded work, as the bridge sees it.
#[derive(Clone, Copy, Debug, PartialEq, Eq, Structural)]
pub struct Dispatch {
    /// How far the work has come.
    pub phase: Phase,
    /// Whether the request that asked for the work still waits for it.
    pub awaited: bool,
}

/// What happens to a unit of work.
pub enum WorkEvent<T, E> {
    /// A worker took it up.
    Started,
    /// It returned.
    Returned(Result<T, E>),
    /// It ended abnormally.
    Panicked,
    /// The request that asked for it went away.
    CallerGone,
}

/// What the bridge does in answer to an event.
pub enum Delivery<T, E> {
    /// Nothing to do yet.
    Pending,
    /// Wake the waiting request with this.
    Deliver(Result<T, BridgeError<E>>),
    /// The work has ended and nobody waits: drop what it left.
    Discard,
    /// The event does not fit the phase and is passed over.
    Ignored,
}

/// What a worker's end means to the request: the work's own result, its
/// own error wrapped, or the worker's death.
pub open spec fn settled<T, E>(event: WorkEvent<T, E>) -> Result<T, BridgeError<E>>
    recommends
        event is Returned || event is Panicked,
{
    match event {
        WorkEvent::Returned(Ok(value)) => Ok(value),
        WorkEvent::Returned(Err(e)) => Err(BridgeError::Inner(e)),
        _ => Err(BridgeError::WorkerPanicked),
    }
}

impl Dispatch {
    /// The unit of work after the event.
    ///
    /// Only `Started` moves queued work, only an end moves running work, and
    /// nothing moves finished work. A caller that goes away is noted and
    /// changes nothing else.
    pub open spec fn after<T, E>(self, event: WorkEvent<T, E>) -> Dispatch {
        match event {
            WorkEvent::Started => if self.phase == Phase::Queued {
                Dispatch { phase: Phase::Running, ..self }
            } else {
                self
            },
            WorkEvent::Returned(_) | WorkEvent::Panicked => if self.phase == Phase::Running {
                Dispatch { phase: Phase::Finished, ..self }
            } else {
                self
            },
            WorkEvent::CallerGone => Dispatch { awaited: false, ..self },
        }
    }

    /// What the bridge does in answer to the event.
    pub open spec fn answer<T, E>(self, event: WorkEvent<T, E>) -> Delivery<T, E> {
        match event {
            WorkEvent::Started => if self.phase == Phase::Queued {
                Delivery::Pending
            } else {
                Delivery::Ignored
            },
            WorkEvent::Returned(_) | WorkEvent::Panicked => if self.phase == Phase::Running {
                if self.awaited {
                    Delivery::Deliver(settled(event))
                } else {
                    Delivery::Discard
                }
            } else {
                Delivery::Ignored
            },
            WorkEvent::CallerGone => if self.awaited {
                Delivery::Pending
            } else {
                Delivery::Ignored
            },
        }
    }

    /// A unit of work as it is handed to the worker pool.
    pub fn new() -> (d: Dispatch)
        ensures
            d == (Dispatch { phase: Phase::Queued, awaited: true }),
    {
        Dispatch { phase: Phase::Queued, awaited: true }
    }

    /// Takes one event: moves the unit of work on and says what to do.
    pub fn step<T, E>(&mut self, event: WorkEvent<T, E>) -> (delivery: Delivery<T, E>)
        ensures
            *final(self) == old(self).after(event),
            delivery == old(self).answer(event),
    {
        match event {
            WorkEvent::Started => {
                if self.phase == Phase::Queued {
                    self.phase = Phase::Running;
                    Delivery::Pending
                } else {
                    Delivery::Ignored
                }
            },
            WorkEvent::Returned(result) => {
                if self.phase == Phase::Running {
                    self.phase = Phase::Finished;
                    if self.awaited {
                        Delivery::Deliver(resolve(Some(result)))
                    } else {
                        Delivery::Discard
                    }
                } else {
                    Delivery::Ignored
                }
            },
            WorkEvent::Panicked => {
                if self.phase == Phase::Running {
                    self.phase = Phase::Finished;
                    if self.awaited {
                        Delivery::Deliver(resolve(None))
                    } else {
                        Delivery::Discard
                    }
                } else {
                    Delivery::Ignored
                }
            },
            WorkEvent::CallerGone => {
                if self.awaited {
                    self.awaited = false;
                    Delivery::Pending
                } else {
                    Delivery::Ignored
                }
            },
        }
    }
}

/// Reads what a worker left: `None` if it ended abnormally, else the
/// work's own result.
pub fn resolve<T, E>(left: Option<Result<T, E>>) -> (result: Result<T, BridgeError<E>>)
    ensures
        result == match left {
            Some(r) => settled(WorkEvent::Returned(r)),
            None => settled(WorkEvent::<T, E>::Panicked),
        },
{
    match left {
        Some(Ok(value)) => Ok(value),
        Some(Err(e)) => Err(BridgeError::Inner(e)),
        None => Err(BridgeError::WorkerPanicked),
    }
}

/// Folds the result of offloaded work whose own errors are already outward
/// ones: they pass through unchanged, and a dead worker becomes an internal
/// failure.
pub fn flatten<T>(result: Result<T, BridgeError<ApiError>>) -> (flat: Result<T, ApiError>)
    ensures
        match result {
            Ok(value) => flat == Ok::<T, ApiError>(value),
            Err(BridgeError::Inner(e)) => flat == Err::<T, ApiError>(e),
            Err(BridgeError::WorkerPanicked) => flat is Err && flat->Err_0@ == single(
                ErrorKind::InternalFailure,
                internal_text(),
            ),
        },
{
    match result {
        Ok(value) => Ok(value),
        Err(e) => Err(normalize(Failure::Bridge(e))),
    }
}

/// A unit of work starts at most once: after it has started, no event
/// brings it back to the queue, and a second start changes nothing.
pub proof fn lemma_starts_at_most_once<T, E>(d: Dispatch, event: WorkEvent<T, E>)
    requires
        d.phase != Phase::Queued,
    ensures
        d.after(event).phase != Phase::Queued,
        event is Started ==> d.after(event) == d && d.answer(event) is Ignored,
{
}

/// Running work is not interrupted: a caller that goes away leaves the
/// phase as it is, and only the work's own end finishes it.
pub proof fn lemma_runs_to_completion<T, E>(d: Dispatch, event: WorkEvent<T, E>)
    requires
        d.phase == Phase::Running,
    ensures
        event is CallerGone ==> d.after(event).phase == Phase::Running,
        d.after(event).phase == Phase::Finished <==> (event is Returned || event is Panicked),
{
}

/// A result is delivered exactly when running work ends while its request
/// still waits; if the request is gone, the result is discarded.
pub proof fn lemma_delivery<T, E>(d: Dispatch, event: WorkEvent<T, E>)
    ensures
        d.answer(event) is Deliver <==> d.phase == Phase::Running && d.awaited && (event
            is Returned || event is Panicked),
        d.answer(event) is Discard <==> d.phase == Phase::Running && !d.awaited && (event
            is Returned || event is Panicked),
{
}

/// Work that ends abnormally while its request waits is delivered as
/// `WorkerPanicked`, never as a result; the bridge goes on to the finished
/// phase like after any other end; and to the caller of the service the
/// failure is an `InternalFailure`.
pub proof fn lemma_panic_is_delivered<T, E>(d: Dispatch)
    requires
        d.phase == Phase::Running,
        d.awaited,
    ensures
        d.answer(WorkEvent::<T, E>::Panicked) == Delivery::<T, E>::Deliver(
            Err(BridgeError::WorkerPanicked),
        ),
        d.after(WorkEvent::<T, E>::Panicked).phase == Phase::Finished,
        normalized(Failure::Bridge(BridgeError::WorkerPanicked)) == single(
            ErrorKind::InternalFailure,
            internal_text(),
        ),
{
}

} // verus!
