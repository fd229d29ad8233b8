//! The bookkeeping of the connection pool.
//!
//! The pool hands out leases of storage connections, at most `capacity` of
//! them at a time. This module keeps the count and decides, for each
//! request for a lease, whether it is granted, must wait longer, or has
//! failed. The waiting itself and the connections are the caller's: it asks
//! again when a lease came back or the remaining time has passed.

use crate::errors::{normalized, ErrorKind, Failure};
use vstd::prelude::*;

verus! {

/// Why a lease could not be had.
#[derive(Clone, Copy, Debug, PartialEq, Eq, Structural)]
pub enum PoolError {
    /// The bounded wait passed and every connection was still leased.
    Exhausted,
    /// A connection was free, but the storage behind it could not be
    /// reached.
    BackendUnavailable,
}

/// What a storage operation can fail with.
#[derive(Clone, Copy, Debug, PartialEq, Eq, Structural)]
pub enum StorageError {
    /// No lease could be had for the operation.
    Pool(PoolError),
    /// The row that was asked for is not there.
    NotFound,
    /// The backend refused or failed the operation.
    Backend,
}

/// The right to use one pooled connection. It cannot be copied: whoever
/// holds it is the connection's only user until it is handed back.
#[derive(Debug)]
pub struct LeasedConnection {
    held: (),
}

/// The answer to a request for a lease.
#[derive(Debug)]
pub enum Acquire {
    /// The lease is granted.
    Leased(LeasedConnection),
    /// Nothing is free yet; ask again after at most this many
    /// milliseconds, or as soon as a lease came back.
    Wait(u64),
    /// The request has failed for good.
    Failed(PoolError),
}

/// The state of the pool's books.
pub struct PoolView {
    /// How many connections the pool has.
    pub capacity: nat,
    /// How many of them are leased.
    pub leased: nat,
    /// How long a request for a lease may wait, in milliseconds.
    pub timeout_ms: nat,
}

/// What a request for a lease leads to, apart from the lease itself.
pub enum Decision {
    Grant,
    Wait(nat),
    Fail(PoolError),
}

/// One thing that happens to the books. The pool takes one at a time,
/// however many callers there are at once, so what many callers do is a
/// sequence of these in some order.
pub enum PoolEvent {
    /// A request for a lease that has waited `waited_ms` so far.
    Request { waited_ms: nat, backend_reachable: bool },
    /// A lease comes back.
    Return,
}

impl PoolView {
    /// The books are in order: the pool has a connection, and no more are
    /// leased than it has.
    pub open spec fn valid(self) -> bool {
        1 <= self.capacity && self.leased <= self.capacity
    }

    /// The decision on a request that has waited `waited_ms` so far.
    ///
    /// A free connection is granted if the backend answers and refused as
    /// `BackendUnavailable` if it does not. With nothing free the request
    /// waits for the rest of the timeout and fails as `Exhausted` once the
    /// timeout has passed.
    pub open spec fn decide(self, waited_ms: nat, backend_reachable: bool) -> Decision {
        if self.leased < self.capacity {
            if backend_reachable {
                Decision::Grant
            } else {
                Decision::Fail(PoolError::BackendUnavailable)
            }
        } else if waited_ms >= self.timeout_ms {
            Decision::Fail(PoolError::Exhausted)
        } else {
            Decision::Wait((self.timeout_ms - waited_ms) as nat)
        }
    }

    /// The books after a request: one more lease if it was granted, no
    /// change otherwise.
    pub open spec fn after_acquire(self, waited_ms: nat, backend_reachable: bool) -> PoolView {
        if self.decide(waited_ms, backend_reachable) is Grant {
            PoolView { leased: self.leased + 1, ..self }
        } else {
            self
        }
    }

    /// The books after `n` requests in a row that find the backend
    /// reachable, with no lease coming back in between.
    pub open spec fn after_acquires(self, n: nat) -> PoolView
        decreases n,
    {
        if n == 0 {
            self
        } else {
            self.after_acquires((n - 1) as nat).after_acquire(0, true)
        }
    }

    /// The books after one event.
    pub open spec fn after_event(self, event: PoolEvent) -> PoolView {
        match event {
            PoolEvent::Request { waited_ms, backend_reachable } => self.after_acquire(
                waited_ms,
                backend_reachable,
            ),
            PoolEvent::Return => self.after_release(),
        }
    }

    /// The books after a sequence of events, in their order.
    pub open spec fn after_events(self, events: Seq<PoolEvent>) -> PoolView
        decreases events.len(),
    {
        if events.len() == 0 {
            self
        } else {
            self.after_events(events.drop_last()).after_event(events.last())
        }
    }

    /// The books after a lease came back: one lease fewer, if any was out.
    pub open spec fn after_release(self) -> PoolView {
        if self.leased > 0 {
            PoolView { leased: (self.leased - 1) as nat, ..self }
        } else {
            self
        }
    }
}

/// The pool's books.
pub struct Pool {
    capacity: usize,
    leased: usize,
    timeout_ms: u64,
}

impl View for Pool {
    type V = PoolView;

    closed spec fn view(&self) -> PoolView {
        PoolView {
            capacity: self.capacity as nat,
            leased: self.leased as nat,
            timeout_ms: self.timeout_ms as nat,
        }
    }
}

impl Pool {
    #[verifier::type_invariant]
    spec fn in_order(self) -> bool {
        1 <= self.capacity && self.leased <= self.capacity
    }

    /// Opens the books of a pool with `capacity` connections, none of them
    /// leased. A pool without connections is refused.
    pub fn new(capacity: usize, timeout_ms: u64) -> (pool: Option<Pool>)
        ensures
            pool is Some <==> capacity >= 1,
            pool is Some ==> pool.unwrap()@ == (PoolView {
                capacity: capacity as nat,
                leased: 0,
                timeout_ms: timeout_ms as nat,
            }),
    {
        if capacity == 0 {
            None
        } else {
            Some(Pool { capacity, leased: 0, timeout_ms })
        }
    }

    /// How many connections the pool has.
    pub fn capacity(&self) -> (n: usize)
        ensures
            n == self@.capacity,
            n >= 1,
    {
        proof {
            use_type_invariant(self);
        }
        self.capacity
    }

    /// How many connections are leased. Never more than the pool has.
    pub fn leased(&self) -> (n: usize)
        ensures
            n == self@.leased,
            n <= self@.capacity,
            self@.valid(),
    {
        proof {
            use_type_invariant(self);
        }
        self.leased
    }

    /// How many connections are free.
    pub fn available(&self) -> (n: usize)
        ensures
            n == self@.capacity - self@.leased,
    {
        proof {
            use_type_invariant(self);
        }
        self.capacity - self.leased
    }

    /// How long a request for a lease may wait, in milliseconds.
    pub fn timeout_ms(&self) -> (n: u64)
        ensures
            n == self@.timeout_ms,
    {
        self.timeout_ms
    }

    /// Decides a request for a lease that has waited `waited_ms` so far.
    ///
    /// The answer is the one `PoolView::decide` gives, and the books change
    /// as `PoolView::after_acquire` says.
    pub fn acquire(&mut self, waited_ms: u64, backend_reachable: bool) -> (answer: Acquire)
        ensures
            final(self)@ == old(self)@.after_acquire(waited_ms as nat, backend_reachable),
            match old(self)@.decide(waited_ms as nat, backend_reachable) {
                Decision::Grant => answer is Leased,
                Decision::Wait(ms) => answer == Acquire::Wait(ms as u64) && 0 < ms
                    <= u64::MAX,
                Decision::Fail(e) => answer == Acquire::Failed(e),
            },
    {
        proof {
            use_type_invariant(&*self);
        }
        if self.leased < self.capacity {
            if backend_reachable {
                self.leased = self.leased + 1;
                Acquire::Leased(LeasedConnection { held: () })
            } else {
                Acquire::Failed(PoolError::BackendUnavailable)
            }
        } else if waited_ms >= self.timeout_ms {
            Acquire::Failed(PoolError::Exhausted)
        } else {
            Acquire::Wait(self.timeout_ms - waited_ms)
        }
    }

    /// Takes a lease back. Returns whether the books had a lease out; if
    /// they had none, they stay as they are.
    pub fn release(&mut self, lease: LeasedConnection) -> (returned: bool)
        ensures
            returned == (old(self)@.leased > 0),
            final(self)@ == old(self)@.after_release(),
    {
        proof {
            use_type_invariant(&*self);
        }
        if self.leased > 0 {
            self.leased = self.leased - 1;
            true
        } else {
            false
        }
    }
}

/// The books stay in order through every request and every return.
pub proof fn lemma_books_stay_in_order(pool: PoolView, waited_ms: nat, backend_reachable: bool)
    requires
        pool.valid(),
    ensures
        pool.after_acquire(waited_ms, backend_reachable).valid(),
        pool.after_release().valid(),
{
}

/// With every connection leased, a request that has waited out the timeout
/// fails as `Exhausted`; one that has not is told to wait for the rest of
/// the timeout and no longer. No request waits without end.
pub proof fn lemma_full_pool_times_out(pool: PoolView, waited_ms: nat, backend_reachable: bool)
    requires
        pool.valid(),
        pool.leased == pool.capacity,
    ensures
        waited_ms >= pool.timeout_ms ==> pool.decide(waited_ms, backend_reachable)
            == Decision::Fail(PoolError::Exhausted),
        waited_ms < pool.timeout_ms ==> pool.decide(waited_ms, backend_reachable)
            == Decision::Wait((pool.timeout_ms - waited_ms) as nat),
        pool.decide(waited_ms, backend_reachable) matches Decision::Wait(ms) ==> pool.decide(
            waited_ms + ms,
            backend_reachable,
        ) == Decision::Fail(PoolError::Exhausted),
        pool.after_acquire(waited_ms, backend_reachable) == pool,
{
}

/// Requests in a row, with no lease coming back, are granted until every
/// connection is leased and not one further.
pub proof fn lemma_leases_fill_the_pool(pool: PoolView, n: nat)
    requires
        pool.valid(),
    ensures
        pool.after_acquires(n).capacity == pool.capacity,
        pool.after_acquires(n).timeout_ms == pool.timeout_ms,
        pool.after_acquires(n).leased == if pool.leased + n <= pool.capacity {
            pool.leased + n
        } else {
            pool.capacity
        },
    decreases n,
{
    if n > 0 {
        lemma_leases_fill_the_pool(pool, (n - 1) as nat);
    }
}

/// One request too many: after as many requests as fill the pool, with
/// every lease still held, the next request is not granted. It is told to
/// wait while the timeout lasts and fails as `Exhausted` once the timeout
/// has passed, and that failure is `ResourceExhausted` to the caller.
pub proof fn lemma_one_request_too_many(
    pool: PoolView,
    n: nat,
    waited_ms: nat,
    backend_reachable: bool,
)
    requires
        pool.valid(),
        pool.leased + n >= pool.capacity,
    ensures
        !(pool.after_acquires(n).decide(waited_ms, backend_reachable) is Grant),
        waited_ms >= pool.timeout_ms ==> pool.after_acquires(n).decide(
            waited_ms,
            backend_reachable,
        ) == Decision::Fail(PoolError::Exhausted),
        normalized(Failure::Pool(PoolError::Exhausted)).kind == ErrorKind::ResourceExhausted,
{
    lemma_leases_fill_the_pool(pool, n);
}

/// Whatever callers do and in whatever order, the books stay in order:
/// after any sequence of requests and returns no more connections are
/// leased than the pool has, and the pool is the same pool.
pub proof fn lemma_any_order_stays_in_order(pool: PoolView, events: Seq<PoolEvent>)
    requires
        pool.valid(),
    ensures
        pool.after_events(events).valid(),
        pool.after_events(events).leased <= pool.capacity,
        pool.after_events(events).capacity == pool.capacity,
        pool.after_events(events).timeout_ms == pool.timeout_ms,
    decreases events.len(),
{
    if events.len() > 0 {
        lemma_any_order_stays_in_order(pool, events.drop_last());
    }
}

/// A request fails as `Exhausted` only if it has waited out the timeout
/// and every connection is still leased. So where every lease comes back
/// within the timeout, no request fails as `Exhausted`: a request that has
/// not waited out the timeout is granted or told to wait, and after a
/// return the next request that finds the backend reachable is granted.
pub proof fn lemma_exhausted_only_after_timeout(
    pool: PoolView,
    waited_ms: nat,
    backend_reachable: bool,
)
    requires
        pool.valid(),
    ensures
        pool.decide(waited_ms, backend_reachable) == Decision::Fail(PoolError::Exhausted) <==> (
        pool.leased == pool.capacity && waited_ms >= pool.timeout_ms),
        waited_ms < pool.timeout_ms && backend_reachable ==> !(pool.decide(
            waited_ms,
            backend_reachable,
        ) is Fail),
        pool.leased > 0 ==> pool.after_release().decide(waited_ms, true) is Grant,
{
}

/// A lease is granted only while fewer connections are leased than the
/// pool has.
pub proof fn lemma_grant_needs_free_connection(
    pool: PoolView,
    waited_ms: nat,
    backend_reachable: bool,
)
    ensures
        pool.decide(waited_ms, backend_reachable) is Grant <==> pool.leased < pool.capacity
            && backend_reachable,
{
}

} // verus!
