//! The pool engine: a slot store and an admission gate kept in step.

use crate::gate::{
    close_gate, drop_permits, gate_is_closed, give_permits, open_gate, permits_of,
    semaphore_closed, semaphore_permits, try_take_permit, Attempt, MAX_PERMITS,
};
use crate::model::PoolState;
use tokio::sync::Semaphore;
use vstd::prelude::*;

verus! {

/// Why a caller did not get a token.
#[derive(Debug, Clone, PartialEq, Eq)]
pub enum PoolError {
    /// The deadline passed before a permit was granted.
    Timeout,
    /// The pool was shut down before or while the caller waited.
    Closed,
    /// The lock around a shared pool was poisoned.
    LockPoisoned,
    /// A permit was granted but the store held no token.
    Empty,
}

impl PoolError {
    /// The text that describes this error.
    pub open spec fn message(self) -> Seq<char> {
        match self {
            PoolError::Timeout => "Timeout acquiring resource"@,
            PoolError::Closed => "Pool closed"@,
            PoolError::LockPoisoned => "Lock poisoned"@,
            PoolError::Empty => "Pool empty"@,
        }
    }

    /// Renders the error as text.
    pub fn to_string(&self) -> (text: String)
        ensures
            text@ == self.message(),
    {
        match self {
            PoolError::Timeout => "Timeout acquiring resource".to_owned(),
            PoolError::Closed => "Pool closed".to_owned(),
            PoolError::LockPoisoned => "Lock poisoned".to_owned(),
            PoolError::Empty => "Pool empty".to_owned(),
        }
    }
}

/// What happened to a caller that is acquiring a token with suspension.
#[derive(Clone, Copy, Debug, PartialEq, Eq, Structural)]
pub enum AcquireEvent {
    /// The caller has just asked for a token.
    Start,
    /// The caller is pending and has been resumed to look for a permit.
    /// Pending callers are resumed in the order they came.
    Woken,
    /// The caller is pending and leaves the line: its deadline passed, or it
    /// gave up.
    TimedOut,
}

/// What a caller that is acquiring a token with suspension does next.
#[derive(Debug, PartialEq, Eq)]
pub enum AcquireStep<O> {
    /// The acquisition is over, with this outcome.
    Done(O),
    /// Nothing is free: the caller suspends until it is resumed or times out.
    Wait,
}

/// A pool of interchangeable tokens. The pool never looks inside a token; it
/// only moves it between the store and the caller that reserved it.
pub struct CorePool<T> {
    pool: Vec<T>,
    semaphore: Semaphore,
    handed: usize,
    size: usize,
    pending: usize,
}

impl<T> View for CorePool<T> {
    type V = PoolState<T>;

    closed spec fn view(&self) -> PoolState<T> {
        PoolState {
            free: self.pool@,
            permits: semaphore_permits(self.semaphore),
            handed: self.handed as nat,
            closed: semaphore_closed(self.semaphore),
            size: self.size as nat,
            pending: self.pending as nat,
        }
    }
}

impl<T> CorePool<T> {
    /// Creates a pool whose tokens are all free.
    pub fn new(items: Vec<T>) -> (pool: Self)
        requires
            items@.len() <= MAX_PERMITS,
        ensures
            pool@ == PoolState::init(items@),
            pool@.inv(),
    {
        let count: usize = items.len();
        CorePool { pool: items, semaphore: open_gate(count), handed: 0, size: count, pending: 0 }
    }

    /// Reserves a token if the semaphore admits it, without ever suspending.
    pub fn try_acquire(&mut self) -> (token: Option<T>)
        requires
            old(self)@.inv(),
        ensures
            token == old(self)@.try_acquire_token(),
            final(self)@ == old(self)@.after_try_acquire(),
            final(self)@.inv(),
    {
        match try_take_permit(&mut self.semaphore) {
            Attempt::Granted => self.pool.pop(),
            _ => None,
        }
    }

    /// Returns a reserved token to the pool. The token is stored before its
    /// permit is given, so a permit never stands for a missing token. While
    /// callers are pending without a permit the permit goes to them, and no
    /// caller that comes later can take it.
    pub fn release(&mut self, item: T)
        requires
            old(self)@.inv(),
            !old(self)@.closed ==> old(self)@.permits + old(self)@.handed < MAX_PERMITS,
        ensures
            final(self)@ == old(self)@.after_release(item),
            final(self)@.inv(),
    {
        self.pool.push(item);
        self.give_permit();
    }

    /// Grows the pool by one free token, whose permit goes where a returned
    /// token's permit goes.
    pub fn add(&mut self, item: T)
        requires
            old(self)@.inv(),
            !old(self)@.closed ==> old(self)@.permits + old(self)@.handed < MAX_PERMITS,
            old(self)@.size < usize::MAX,
        ensures
            final(self)@ == old(self)@.after_add(item),
            final(self)@.inv(),
    {
        self.pool.push(item);
        self.give_permit();
        self.size = self.size + 1;
    }

    /// Gives the permit of a token that was just stored: to a pending caller
    /// that has none yet, else to the semaphore. A closed pool gets none.
    fn give_permit(&mut self)
        requires
            old(self).handed <= old(self).pending,
            !semaphore_closed(old(self).semaphore) && old(self).handed >= old(self).pending
                ==> semaphore_permits(old(self).semaphore) < MAX_PERMITS,
        ensures
            final(self).pool == old(self).pool,
            final(self).size == old(self).size,
            final(self).pending == old(self).pending,
            semaphore_closed(final(self).semaphore) == semaphore_closed(old(self).semaphore),
            semaphore_closed(old(self).semaphore) ==> final(self).handed == old(self).handed
                && semaphore_permits(final(self).semaphore) == semaphore_permits(
                old(self).semaphore,
            ),
            !semaphore_closed(old(self).semaphore) && old(self).handed < old(self).pending
                ==> final(self).handed == old(self).handed + 1 && semaphore_permits(
                final(self).semaphore,
            ) == semaphore_permits(old(self).semaphore),
            !semaphore_closed(old(self).semaphore) && old(self).handed >= old(self).pending
                ==> final(self).handed == old(self).handed && semaphore_permits(
                final(self).semaphore,
            ) == semaphore_permits(old(self).semaphore) + 1,
    {
        if !gate_is_closed(&self.semaphore) {
            if self.handed < self.pending {
                self.handed = self.handed + 1;
            } else {
                give_permits(&mut self.semaphore, 1);
            }
        }
    }

    /// Takes a pending caller off the count. Where every pending caller had a
    /// permit in hand, the permit of the one that leaves goes to the semaphore.
    fn leave(&mut self)
        requires
            old(self)@.inv(),
        ensures
            final(self)@ == old(self)@.left(),
            final(self)@.inv(),
    {
        if self.pending > 0 && self.handed == self.pending {
            self.handed = self.handed - 1;
            self.pending = self.pending - 1;
            give_permits(&mut self.semaphore, 1);
        } else {
            self.pending = self.pending.saturating_sub(1);
        }
    }

    /// Withdraws one free token for good, if the semaphore admits it. The permit
    /// that was taken for it is not given back.
    pub fn remove_one(&mut self) -> (token: Option<T>)
        requires
            old(self)@.inv(),
        ensures
            token == old(self)@.try_acquire_token(),
            final(self)@ == old(self)@.after_remove_one(),
            final(self)@.inv(),
    {
        match try_take_permit(&mut self.semaphore) {
            Attempt::Granted => {
                let token = self.pool.pop();
                self.size = self.size.saturating_sub(1);
                token
            },
            _ => None,
        }
    }

    /// Whether the pool can take a token: it is closed, or its permits are
    /// below the most a semaphore can hold. This is what `release` and `add`
    /// ask of the pool.
    pub fn has_room(&self) -> (room: bool)
        requires
            self@.inv(),
        ensures
            room == (self@.closed || self@.permits + self@.handed < MAX_PERMITS),
    {
        gate_is_closed(&self.semaphore) || permits_of(&self.semaphore) < MAX_PERMITS
            - self.handed
    }

    /// The semaphore's budget: how many reservations it would admit right now
    /// from callers that are not waiting. Permits handed to pending callers
    /// are not counted.
    pub fn available_count(&self) -> (count: usize)
        ensures
            count == self@.permits,
    {
        permits_of(&self.semaphore)
    }

    /// How many tokens the pool manages, free or reserved.
    pub fn size(&self) -> (count: usize)
        ensures
            count == self@.size,
    {
        self.size
    }

    /// How many callers are suspended waiting for a permit.
    pub fn pending_count(&self) -> (count: usize)
        ensures
            count == self@.pending,
    {
        self.pending
    }

    /// Shuts the pool down: closes the semaphore and takes every permit away,
    /// from it and from the hands of pending callers, then empties the store and hands back the tokens that were free, in the
    /// order the store held them. Tokens that callers hold stay with them.
    pub fn destroy(&mut self) -> (drained: Vec<T>)
        requires
            old(self)@.inv(),
        ensures
            drained@ == old(self)@.free,
            final(self)@ == old(self)@.after_destroy(),
            final(self)@.inv(),
    {
        close_gate(&mut self.semaphore);
        drop_permits(&mut self.semaphore, MAX_PERMITS);
        self.handed = 0;
        let mut drained: Vec<T> = Vec::new();
        std::mem::swap(&mut drained, &mut self.pool);
        self.size = self.size.saturating_sub(drained.len());
        drained
    }

    /// Takes the next step of an acquisition that may suspend its caller.
    ///
    /// The caller starts with `AcquireEvent::Start`. Told to wait, it suspends
    /// and comes back with `AcquireEvent::Woken` when the pool has changed, or
    /// with `AcquireEvent::TimedOut` when its deadline has passed or it gives
    /// up. A caller that starts takes its permit from the semaphore; a caller
    /// that was woken takes one of the permits handed to pending callers, which
    /// no other caller can reach. The permit and the token leave the pool
    /// within one step, and the invariant rules out the arms that answer
    /// `PoolError::Empty`.
    pub fn acquire_async(&mut self, event: AcquireEvent) -> (step: AcquireStep<
        Result<T, PoolError>,
    >)
        requires
            old(self)@.inv(),
            event == AcquireEvent::Start && !old(self)@.closed && old(self)@.permits == 0
                ==> old(self)@.pending < usize::MAX,
        ensures
            step == old(self)@.acquire_step(event),
            final(self)@ == old(self)@.after_acquire(event),
            final(self)@.inv(),
    {
        match event {
            AcquireEvent::TimedOut => {
                self.leave();
                AcquireStep::Done(Err(PoolError::Timeout))
            },
            AcquireEvent::Start => match try_take_permit(&mut self.semaphore) {
                Attempt::Granted => match self.pool.pop() {
                    Some(token) => AcquireStep::Done(Ok(token)),
                    None => AcquireStep::Done(Err(PoolError::Empty)),
                },
                Attempt::Closed => AcquireStep::Done(Err(PoolError::Closed)),
                Attempt::NoPermits => {
                    self.pending = self.pending + 1;
                    AcquireStep::Wait
                },
            },
            AcquireEvent::Woken => {
                if gate_is_closed(&self.semaphore) {
                    self.leave();
                    AcquireStep::Done(Err(PoolError::Closed))
                } else if self.handed > 0 {
                    self.handed = self.handed - 1;
                    self.pending = self.pending - 1;
                    match self.pool.pop() {
                        Some(token) => AcquireStep::Done(Ok(token)),
                        None => AcquireStep::Done(Err(PoolError::Empty)),
                    }
                } else {
                    AcquireStep::Wait
                }
            },
        }
    }
}

} // verus!
