//! The mathematical model of a pool: what the pool is, and what each operation
//! makes of it. The executable pool is specified against these functions.

use crate::gate::MAX_PERMITS;
use crate::pool::{AcquireEvent, AcquireStep, PoolError};
use vstd::prelude::*;

verus! {

/// A pool as the contracts see it.
pub struct PoolState<T> {
    /// The slot store: the free tokens, the most recently returned one last.
    pub free: Seq<T>,
    /// The semaphore's budget: how many reservations it will still admit from
    /// callers that are not waiting.
    pub permits: nat,
    /// The permits handed to pending callers and not yet redeemed. A permit
    /// that is returned while callers wait goes to them, not to the semaphore.
    pub handed: nat,
    /// Whether the semaphore has been closed.
    pub closed: bool,
    /// The size counter: how many tokens the pool manages, free or reserved.
    pub size: nat,
    /// The pending counter: how many callers are suspended waiting for a permit.
    pub pending: nat,
}

impl<T> PoolState<T> {
    /// The pool that `items` make: every token free, one permit for each.
    pub open spec fn init(items: Seq<T>) -> Self {
        PoolState {
            free: items,
            permits: items.len(),
            handed: 0,
            closed: false,
            size: items.len(),
            pending: 0,
        }
    }

    /// The invariant of a pool. While the pool is open every free token stands
    /// behind exactly one permit, in the semaphore or in the hand of a pending
    /// caller, so a permit can always be redeemed. No more permits are handed
    /// out than callers are pending. Once the pool is closed no permit is left.
    pub open spec fn inv(self) -> bool {
        &&& !self.closed ==> self.permits + self.handed == self.free.len()
        &&& self.closed ==> self.permits == 0 && self.handed == 0
        &&& self.handed <= self.pending
        &&& self.permits + self.handed <= MAX_PERMITS
        &&& self.size <= usize::MAX
        &&& self.pending <= usize::MAX
    }

    /// Whether the semaphore admits a reservation right now.
    pub open spec fn admits(self) -> bool {
        !self.closed && self.permits > 0
    }

    /// Whether a permit that is returned now goes to a pending caller.
    pub open spec fn owes_waiter(self) -> bool {
        !self.closed && self.handed < self.pending
    }

    /// The pool after a permit of the semaphore was redeemed for the token at
    /// the end of the store.
    pub open spec fn reserved(self) -> Self {
        PoolState { free: self.free.drop_last(), permits: (self.permits - 1) as nat, ..self }
    }

    /// The pool after a pending caller redeemed the permit it was handed for
    /// the token at the end of the store, and so stopped waiting.
    pub open spec fn redeemed(self) -> Self {
        PoolState {
            free: self.free.drop_last(),
            handed: (self.handed - 1) as nat,
            pending: (self.pending - 1) as nat,
            ..self
        }
    }

    /// The pool after a pending caller left without a token. The pending
    /// counter stops at zero. Where every pending caller had a permit in hand,
    /// the one that leaves passes its permit on to the semaphore.
    pub open spec fn left(self) -> Self {
        if self.pending > 0 && self.handed == self.pending {
            PoolState {
                permits: self.permits + 1,
                handed: (self.handed - 1) as nat,
                pending: (self.pending - 1) as nat,
                ..self
            }
        } else {
            PoolState {
                pending: if self.pending > 0 { (self.pending - 1) as nat } else { 0 },
                ..self
            }
        }
    }

    /// The token that a non-blocking reservation hands out, if any.
    pub open spec fn try_acquire_token(self) -> Option<T> {
        if self.admits() {
            Some(self.free.last())
        } else {
            None
        }
    }

    /// The pool after a non-blocking reservation.
    pub open spec fn after_try_acquire(self) -> Self {
        if self.admits() {
            self.reserved()
        } else {
            self
        }
    }

    /// The pool after `item` was returned: the token is stored, and on an open
    /// pool its permit goes to a pending caller that has none yet, or to the
    /// semaphore if no such caller waits. A closed pool gets no permit, so a
    /// token returned after shutdown can be drained but never reserved.
    pub open spec fn after_release(self, item: T) -> Self {
        if self.closed {
            PoolState { free: self.free.push(item), ..self }
        } else if self.handed < self.pending {
            PoolState { free: self.free.push(item), handed: self.handed + 1, ..self }
        } else {
            PoolState { free: self.free.push(item), permits: self.permits + 1, ..self }
        }
    }

    /// The pool after it grew by `item`.
    pub open spec fn after_add(self, item: T) -> Self {
        PoolState { size: self.size + 1, ..self.after_release(item) }
    }

    /// The pool after one free token was withdrawn for good, if the semaphore
    /// had a permit for it. The size counter stops at zero.
    pub open spec fn after_remove_one(self) -> Self {
        if self.admits() {
            PoolState {
                size: if self.size > 0 { (self.size - 1) as nat } else { 0 },
                ..self.reserved()
            }
        } else {
            self
        }
    }

    /// The pool after shutdown: the semaphore closed, no permit left in it or
    /// in any hand, the store empty, and the size counter lowered by the number
    /// of tokens that were free, stopping at zero.
    pub open spec fn after_destroy(self) -> Self {
        PoolState {
            free: Seq::<T>::empty(),
            permits: 0,
            handed: 0,
            closed: true,
            size: if self.size >= self.free.len() { (self.size - self.free.len()) as nat } else { 0 },
            ..self
        }
    }

    /// What an acquiring caller does next, given what happened to it. A deadline
    /// that passed ends the acquisition whatever the pool holds, and a closed
    /// pool ends it too. Otherwise a caller that starts looks to the semaphore,
    /// and a caller that was woken looks to the permits handed to pending
    /// callers; each redeems a permit for the token at the end of the store, or
    /// goes to sleep if there is none for it.
    pub open spec fn acquire_step(self, event: AcquireEvent) -> AcquireStep<Result<T, PoolError>> {
        match event {
            AcquireEvent::TimedOut => AcquireStep::Done(Err(PoolError::Timeout)),
            AcquireEvent::Start => if self.closed {
                AcquireStep::Done(Err(PoolError::Closed))
            } else if self.permits > 0 {
                AcquireStep::Done(Ok(self.free.last()))
            } else {
                AcquireStep::Wait
            },
            AcquireEvent::Woken => if self.closed {
                AcquireStep::Done(Err(PoolError::Closed))
            } else if self.handed > 0 {
                AcquireStep::Done(Ok(self.free.last()))
            } else {
                AcquireStep::Wait
            },
        }
    }

    /// The pool after an acquiring caller took its next step. A caller that
    /// starts and must wait is counted as pending; a suspended caller whose
    /// acquisition ends is no longer counted. A permit is redeemed only
    /// together with its token, and a caller that leaves at its deadline takes
    /// no permit with it.
    pub open spec fn after_acquire(self, event: AcquireEvent) -> Self {
        match event {
            AcquireEvent::Start => if self.closed {
                self
            } else if self.permits > 0 {
                self.reserved()
            } else {
                PoolState { pending: self.pending + 1, ..self }
            },
            AcquireEvent::Woken => if self.closed {
                self.left()
            } else if self.handed > 0 {
                self.redeemed()
            } else {
                self
            },
            AcquireEvent::TimedOut => self.left(),
        }
    }
}

} // verus!
