//! Laws of the pool, proved over its model for every pool and every input.

use crate::gate::MAX_PERMITS;
use crate::model::PoolState;
use crate::pool::{AcquireEvent, AcquireStep, PoolError};
use vstd::prelude::*;

verus! {

/// One operation on an open pool, as a caller issues it.
pub enum PoolOp<T> {
    /// Grow the pool by a token.
    Add(T),
    /// Withdraw one free token for good.
    RemoveOne,
    /// Return a reserved token.
    Release(T),
    /// Reserve a token without suspending.
    TryAcquire,
    /// Take one step of a reservation that may suspend.
    Acquire(AcquireEvent),
}

impl<T> PoolOp<T> {
    /// Whether the operation brings a token, and with it a permit, to the pool.
    pub open spec fn returns_token(self) -> bool {
        self is Release || self is Add
    }
}

impl<T> PoolState<T> {
    /// The pool after `op`.
    pub open spec fn after_op(self, op: PoolOp<T>) -> Self {
        match op {
            PoolOp::Add(item) => self.after_add(item),
            PoolOp::RemoveOne => self.after_remove_one(),
            PoolOp::Release(item) => self.after_release(item),
            PoolOp::TryAcquire => self.after_try_acquire(),
            PoolOp::Acquire(event) => self.after_acquire(event),
        }
    }

    /// The pool after `ops`, issued one after the other.
    pub open spec fn after_ops(self, ops: Seq<PoolOp<T>>) -> Self
        decreases ops.len(),
    {
        if ops.len() == 0 {
            self
        } else {
            self.after_op(ops[0]).after_ops(ops.drop_first())
        }
    }

    /// Whether `op` hands a token to the caller that issues it.
    pub open spec fn yields_token(self, op: PoolOp<T>) -> bool {
        match op {
            PoolOp::TryAcquire => self.try_acquire_token() is Some,
            PoolOp::Acquire(event) => self.acquire_step(event) matches AcquireStep::Done(Ok(_)),
            _ => false,
        }
    }

    /// Whether `op` takes a caller out of the line of pending callers: the
    /// caller was woken and got a token, or it left at its deadline.
    pub open spec fn ends_a_wait(self, op: PoolOp<T>) -> bool {
        match op {
            PoolOp::Acquire(AcquireEvent::Woken) => self.yields_token(op),
            PoolOp::Acquire(AcquireEvent::TimedOut) => true,
            _ => false,
        }
    }

    /// How many waits end while `ops` are issued one after the other.
    pub open spec fn waits_ended(self, ops: Seq<PoolOp<T>>) -> nat
        decreases ops.len(),
    {
        if ops.len() == 0 {
            0
        } else {
            (if self.ends_a_wait(ops[0]) {
                1nat
            } else {
                0nat
            }) + self.after_op(ops[0]).waits_ended(ops.drop_first())
        }
    }
}

/// How many of `ops` bring a token to the pool.
pub open spec fn tokens_returned<T>(ops: Seq<PoolOp<T>>) -> nat
    decreases ops.len(),
{
    if ops.len() == 0 {
        0
    } else {
        (if ops[0].returns_token() {
            1nat
        } else {
            0nat
        }) + tokens_returned(ops.drop_first())
    }
}

/// A pool together with the number of tokens that callers hold reserved. The
/// pool itself does not record that number; its callers account for it.
pub struct Ledger<T> {
    /// The pool.
    pub pool: PoolState<T>,
    /// How many tokens callers hold reserved.
    pub held: nat,
}

impl<T> Ledger<T> {
    /// The books balance: a permit for each free token, in the semaphore or in
    /// the hand of a pending caller, and every token the pool manages either
    /// free or reserved.
    pub open spec fn balanced(self) -> bool {
        &&& !self.pool.closed
        &&& self.pool.permits + self.pool.handed == self.pool.free.len()
        &&& self.pool.handed <= self.pool.pending
        &&& self.pool.size == self.pool.permits + self.pool.handed + self.held
    }

    /// Whether a caller may issue `op`: only a token that is reserved can be
    /// returned.
    pub open spec fn allows(self, op: PoolOp<T>) -> bool {
        op is Release ==> self.held > 0
    }

    /// The ledger after `op`.
    pub open spec fn after(self, op: PoolOp<T>) -> Self {
        Ledger {
            pool: self.pool.after_op(op),
            held: if op is Release {
                (self.held - 1) as nat
            } else if self.pool.yields_token(op) {
                self.held + 1
            } else {
                self.held
            },
        }
    }

    /// Whether a caller may issue `ops` one after the other.
    pub open spec fn allows_all(self, ops: Seq<PoolOp<T>>) -> bool
        decreases ops.len(),
    {
        ops.len() > 0 ==> self.allows(ops[0]) && self.after(ops[0]).allows_all(ops.drop_first())
    }

    /// The ledger after `ops`, issued one after the other.
    pub open spec fn after_all(self, ops: Seq<PoolOp<T>>) -> Self
        decreases ops.len(),
    {
        if ops.len() == 0 {
            self
        } else {
            self.after(ops[0]).after_all(ops.drop_first())
        }
    }
}

/// A new pool, whatever its length: as many tokens as permits as items, no
/// caller pending and no permit in any hand, the store holding exactly the
/// items, in their order, and the pool open and sound in all but the machine's
/// limits.
pub proof fn lemma_new_pool_is_all_free<T>(items: Seq<T>)
    ensures
        PoolState::init(items).size == items.len(),
        PoolState::init(items).permits == items.len(),
        PoolState::init(items).handed == 0,
        PoolState::init(items).pending == 0,
        PoolState::init(items).free == items,
        PoolState::init(items).free.to_multiset() == items.to_multiset(),
        !PoolState::init(items).closed,
        (Ledger { pool: PoolState::init(items), held: 0 }).balanced(),
        items.len() <= MAX_PERMITS ==> PoolState::init(items).inv(),
{
}

/// Accounting of a return: on a balanced ledger with a token held, `release`
/// keeps the size and the pending count, stores the token last, and leaves one
/// token fewer held. Where no caller waits for a permit the semaphore has one
/// permit more; otherwise a pending caller has.
pub proof fn lemma_release_accounting<T>(ledger: Ledger<T>, item: T)
    requires
        ledger.balanced(),
        ledger.held > 0,
    ensures
        ({
            let end = ledger.after(PoolOp::Release(item));
            &&& end.pool.size == ledger.pool.size
            &&& end.pool.pending == ledger.pool.pending
            &&& end.pool.free == ledger.pool.free.push(item)
            &&& end.held == ledger.held - 1
            &&& end.pool.permits + end.pool.handed == ledger.pool.permits + ledger.pool.handed + 1
            &&& !ledger.pool.owes_waiter() ==> end.pool.permits == ledger.pool.permits + 1
            &&& ledger.pool.owes_waiter() ==> end.pool.handed == ledger.pool.handed + 1
            &&& end.balanced()
        }),
{
}

/// Accounting of growth: on a balanced ledger `add` raises the size by one,
/// stores the token last, and changes neither the pending count nor the number
/// of tokens held. Where no caller waits for a permit the semaphore has one
/// permit more; otherwise a pending caller has.
pub proof fn lemma_add_accounting<T>(ledger: Ledger<T>, item: T)
    requires
        ledger.balanced(),
    ensures
        ({
            let end = ledger.after(PoolOp::Add(item));
            &&& end.pool.size == ledger.pool.size + 1
            &&& end.pool.pending == ledger.pool.pending
            &&& end.pool.free == ledger.pool.free.push(item)
            &&& end.pool.free.last() == item
            &&& end.held == ledger.held
            &&& end.pool.permits + end.pool.handed == ledger.pool.permits + ledger.pool.handed + 1
            &&& !ledger.pool.owes_waiter() ==> end.pool.permits == ledger.pool.permits + 1
            &&& ledger.pool.owes_waiter() ==> end.pool.handed == ledger.pool.handed + 1
            &&& end.balanced()
        }),
{
}

/// Accounting, one operation: a balanced ledger stays balanced under every
/// operation that a caller may issue.
pub proof fn lemma_op_keeps_balance<T>(ledger: Ledger<T>, op: PoolOp<T>)
    requires
        ledger.balanced(),
        ledger.allows(op),
    ensures
        ledger.after(op).balanced(),
{
}

/// Accounting, any history: a balanced ledger stays balanced under every
/// sequence of operations that callers may issue. Since each prefix of a
/// sequence is a sequence, the books balance between any two operations.
pub proof fn lemma_ops_keep_balance<T>(ledger: Ledger<T>, ops: Seq<PoolOp<T>>)
    requires
        ledger.balanced(),
        ledger.allows_all(ops),
    ensures
        ledger.after_all(ops).balanced(),
    decreases ops.len(),
{
    if ops.len() > 0 {
        lemma_op_keeps_balance(ledger, ops[0]);
        lemma_ops_keep_balance(ledger.after(ops[0]), ops.drop_first());
    }
}

/// Accounting from construction: whatever callers do with a new pool, its size
/// is the number of permits plus the number of tokens reserved, and every
/// permit has its token. Whenever no permit is on its way to a pending caller,
/// the size is the number of permits available plus the number of tokens
/// reserved.
pub proof fn lemma_size_is_available_plus_reserved<T>(items: Seq<T>, ops: Seq<PoolOp<T>>)
    requires
        (Ledger { pool: PoolState::init(items), held: 0 }).allows_all(ops),
    ensures
        ({
            let end = (Ledger { pool: PoolState::init(items), held: 0 }).after_all(ops);
            &&& end.pool.size == end.pool.permits + end.pool.handed + end.held
            &&& end.pool.permits + end.pool.handed == end.pool.free.len()
            &&& end.pool.handed == 0 ==> end.pool.size == end.pool.permits + end.held
        }),
{
    lemma_ops_keep_balance(Ledger { pool: PoolState::init(items), held: 0 }, ops);
}

/// A granted permit can be redeemed: whenever a sound pool grants a
/// reservation the store holds a token for it, so no reservation ever ends
/// with `PoolError::Empty`.
pub proof fn lemma_granted_permit_has_a_token<T>(pool: PoolState<T>, event: AcquireEvent)
    requires
        pool.inv(),
    ensures
        pool.admits() ==> pool.free.len() > 0,
        pool.try_acquire_token() is Some <==> pool.admits(),
        pool.acquire_step(event) != AcquireStep::<Result<T, PoolError>>::Done(
            Err(PoolError::Empty),
        ),
        pool.acquire_step(event) matches AcquireStep::Done(Ok(token)) ==> pool.free.len() > 0
            && token == pool.free.last(),
{
}

/// No double dispense: of two reservations in a row on a pool with exactly one
/// free token and nobody waiting, the first gets that token and the second
/// gets nothing, whether it asks without suspending or is about to suspend. A
/// second caller that suspends stays waiting when it is woken without a
/// return, is told `Timeout` at its deadline, and is then no longer counted as
/// pending.
pub proof fn lemma_single_token_is_dispensed_once<T>(pool: PoolState<T>)
    requires
        pool.inv(),
        !pool.closed,
        pool.free.len() == 1,
        pool.pending == 0,
    ensures
        pool.try_acquire_token() == Some(pool.free[0]),
        pool.acquire_step(AcquireEvent::Start) == AcquireStep::Done(
            Ok::<T, PoolError>(pool.free[0]),
        ),
        pool.after_try_acquire() == pool.after_acquire(AcquireEvent::Start),
        pool.after_try_acquire().try_acquire_token() == None::<T>,
        pool.after_try_acquire().acquire_step(AcquireEvent::Start) == AcquireStep::<
            Result<T, PoolError>,
        >::Wait,
        ({
            let waiting = pool.after_try_acquire().after_acquire(AcquireEvent::Start);
            &&& waiting.pending == 1
            &&& waiting.acquire_step(AcquireEvent::Woken) == AcquireStep::<
                Result<T, PoolError>,
            >::Wait
            &&& waiting.after_acquire(AcquireEvent::Woken) == waiting
            &&& waiting.acquire_step(AcquireEvent::TimedOut) == AcquireStep::<
                Result<T, PoolError>,
            >::Done(Err(PoolError::Timeout))
            &&& waiting.after_acquire(AcquireEvent::TimedOut) == pool.after_try_acquire()
            &&& waiting.after_destroy().acquire_step(AcquireEvent::Woken) == AcquireStep::<
                Result<T, PoolError>,
            >::Done(Err(PoolError::Closed))
        }),
{
}

/// Waiting on a pool that is fully reserved: a caller that starts is told to
/// wait and is counted as pending, stays waiting however often it is woken
/// while nothing is returned, and is told `Timeout` at its deadline and not
/// before. The pool is then exactly as it was when the caller started.
pub proof fn lemma_wait_on_reserved_pool_ends_in_timeout<T>(pool: PoolState<T>)
    requires
        pool.inv(),
        !pool.closed,
        pool.free.len() == 0,
    ensures
        pool.acquire_step(AcquireEvent::Start) == AcquireStep::<Result<T, PoolError>>::Wait,
        ({
            let waiting = pool.after_acquire(AcquireEvent::Start);
            &&& waiting.pending == pool.pending + 1
            &&& waiting.acquire_step(AcquireEvent::Woken) == AcquireStep::<
                Result<T, PoolError>,
            >::Wait
            &&& waiting.after_acquire(AcquireEvent::Woken) == waiting
            &&& waiting.acquire_step(AcquireEvent::TimedOut) == AcquireStep::<
                Result<T, PoolError>,
            >::Done(Err(PoolError::Timeout))
            &&& waiting.after_acquire(AcquireEvent::TimedOut) == pool
        }),
{
}

/// Round trip: on an open pool where no caller waits for a permit, a token
/// that is returned is the very token that the next reservation hands out,
/// whatever else the store holds, and the pool is then as it was before the
/// return. So the token handed out is one of the free tokens with the returned
/// one among them, and the store afterwards holds those tokens less the one
/// handed out.
pub proof fn lemma_release_then_acquire_returns_token<T>(pool: PoolState<T>, item: T)
    requires
        !pool.closed,
        pool.handed >= pool.pending,
    ensures
        pool.after_release(item).try_acquire_token() == Some(item),
        pool.after_release(item).after_try_acquire() == pool,
        pool.free.to_multiset().insert(item).contains(item),
        pool.after_release(item).after_try_acquire().free.to_multiset()
            == pool.free.to_multiset().insert(item).remove(item),
        pool.after_release(item).acquire_step(AcquireEvent::Start) == AcquireStep::Done(
            Ok::<T, PoolError>(item),
        ),
{
    assert(pool.free.push(item).drop_last() =~= pool.free);
    assert(pool.free.to_multiset().insert(item).remove(item) =~= pool.free.to_multiset());
}

/// A returned permit goes to the callers that wait: on an open pool where a
/// pending caller has no permit yet, the permit of a returned token is handed
/// to the pending callers and the semaphore gets none. What a caller that is
/// not waiting can get is what it could get before the return, and the next
/// pending caller that is woken gets the returned token.
pub proof fn lemma_returned_permit_goes_to_waiter<T>(pool: PoolState<T>, item: T)
    requires
        pool.inv(),
        pool.owes_waiter(),
    ensures
        pool.after_release(item).permits == pool.permits,
        pool.after_release(item).handed == pool.handed + 1,
        pool.after_release(item).pending == pool.pending,
        pool.after_release(item).admits() == pool.admits(),
        pool.after_release(item).after_try_acquire().handed == pool.handed + 1,
        pool.after_release(item).after_remove_one().handed == pool.handed + 1,
        pool.after_release(item).after_acquire(AcquireEvent::Start).handed == pool.handed + 1,
        pool.after_release(item).acquire_step(AcquireEvent::Woken) == AcquireStep::Done(
            Ok::<T, PoolError>(item),
        ),
        pool.after_release(item).after_acquire(AcquireEvent::Woken).handed == pool.handed,
        pool.after_release(item).after_acquire(AcquireEvent::Woken).pending == pool.pending - 1,
        pool.after_release(item).after_acquire(AcquireEvent::Woken).free == pool.free,
{
    assert(pool.free.push(item).drop_last() =~= pool.free);
}

/// A permit in the hand of a pending caller stays there: no operation of a
/// caller that is not waiting lowers the number of permits handed out or the
/// number of callers pending, whatever it is and whenever it comes.
pub proof fn lemma_bystander_takes_no_handed_permit<T>(pool: PoolState<T>, op: PoolOp<T>)
    requires
        !pool.closed,
        pool.handed <= pool.pending,
        !(op matches PoolOp::Acquire(AcquireEvent::Woken)),
        !(op matches PoolOp::Acquire(AcquireEvent::TimedOut)),
    ensures
        pool.after_op(op).handed >= pool.handed,
        pool.after_op(op).pending >= pool.pending,
        pool.after_op(op).handed <= pool.after_op(op).pending,
        !pool.after_op(op).closed,
{
}

/// The line of pending callers moves with every return. Take an open pool and
/// `waiting` of its pending callers, and let callers issue any operations. Then
/// the waits that have ended, together with the permits that pending callers
/// have in hand, are at least the permits handed out at the start plus the
/// tokens returned since, up to `waiting`. Callers that start, reserve without
/// suspending or withdraw a token in between change nothing in this.
pub proof fn lemma_line_moves_with_every_return<T>(
    pool: PoolState<T>,
    ops: Seq<PoolOp<T>>,
    waiting: int,
)
    requires
        !pool.closed,
        pool.handed <= pool.pending,
        waiting <= pool.pending,
    ensures
        !pool.after_ops(ops).closed,
        pool.after_ops(ops).handed <= pool.after_ops(ops).pending,
        waiting - pool.waits_ended(ops) <= pool.after_ops(ops).pending,
        pool.handed + tokens_returned(ops) >= waiting ==> pool.after_ops(ops).handed
            + pool.waits_ended(ops) >= waiting,
        pool.handed + tokens_returned(ops) < waiting ==> pool.after_ops(ops).handed
            + pool.waits_ended(ops) >= pool.handed + tokens_returned(ops),
    decreases ops.len(),
{
    if ops.len() > 0 {
        let op = ops[0];
        let next = pool.after_op(op);
        let ended: int = if pool.ends_a_wait(op) {
            1
        } else {
            0
        };
        lemma_line_moves_with_every_return(next, ops.drop_first(), waiting - ended);
    }
}

/// Starvation-freedom: a pending caller gets a token after as many returns as
/// there are callers in line up to and including it. Take an open pool in
/// which caller W is pending with `ahead` pending callers before it, and let
/// callers issue any operations, among them enough returns for the callers
/// ahead and for W. Once the waits of the callers ahead have ended, W is woken
/// to a token, whatever callers that came later did in between: they could
/// start, reserve without suspending and withdraw tokens, and none of them
/// could take the permit that was W's.
pub proof fn lemma_waiter_is_served_in_turn<T>(
    pool: PoolState<T>,
    ops: Seq<PoolOp<T>>,
    ahead: nat,
)
    requires
        pool.inv(),
        !pool.closed,
        ahead < pool.pending,
        pool.handed + tokens_returned(ops) >= ahead + 1,
        pool.waits_ended(ops) == ahead,
    ensures
        pool.after_ops(ops).handed >= 1,
        pool.after_ops(ops).acquire_step(AcquireEvent::Woken) == AcquireStep::Done(
            Ok::<T, PoolError>(pool.after_ops(ops).free.last()),
        ),
{
    lemma_line_moves_with_every_return(pool, ops, (ahead + 1) as int);
}

/// A closed pool grants nothing and stays closed: every reservation without
/// suspension comes back empty, every caller that starts or is woken is told
/// that the pool is closed, and no operation opens the pool again.
pub proof fn lemma_closed_pool_grants_nothing<T>(pool: PoolState<T>, op: PoolOp<T>)
    requires
        pool.closed,
    ensures
        pool.try_acquire_token() == None::<T>,
        pool.after_remove_one() == pool,
        pool.acquire_step(AcquireEvent::Start) == AcquireStep::<Result<T, PoolError>>::Done(
            Err(PoolError::Closed),
        ),
        pool.acquire_step(AcquireEvent::Woken) == AcquireStep::<Result<T, PoolError>>::Done(
            Err(PoolError::Closed),
        ),
        pool.after_op(op).closed,
        pool.after_destroy().closed,
{
}

/// Shutdown reaches every waiter: `destroy` closes the pool whatever state it
/// was in and leaves neither a permit nor a token, so a suspended caller that
/// is woken afterwards is told that the pool is closed, deadline or not, and
/// is then no longer counted as pending.
pub proof fn lemma_destroy_closes<T>(pool: PoolState<T>)
    ensures
        pool.after_destroy().closed,
        pool.after_destroy().permits == 0,
        pool.after_destroy().handed == 0,
        pool.after_destroy().free.len() == 0,
        pool.inv() ==> pool.after_destroy().inv(),
        pool.after_destroy().acquire_step(AcquireEvent::Woken) == AcquireStep::<
            Result<T, PoolError>,
        >::Done(Err(PoolError::Closed)),
        pool.after_destroy().after_acquire(AcquireEvent::Woken).pending == (if pool.pending
            > 0 {
            pool.pending - 1
        } else {
            0
        }),
{
}

/// Permits stand for free tokens at shutdown too: a pool whose tokens are all
/// free has size zero and no permit once it is destroyed, and a token that is
/// returned after shutdown is stored without a permit, so it can be drained
/// but not reserved.
pub proof fn lemma_no_permits_after_shutdown<T>(items: Seq<T>, pool: PoolState<T>, item: T)
    requires
        pool.inv(),
    ensures
        PoolState::init(items).after_destroy().permits == 0,
        PoolState::init(items).after_destroy().size == 0,
        pool.after_destroy().after_release(item).permits == 0,
        pool.after_destroy().after_release(item).handed == 0,
        pool.after_destroy().after_release(item).free == seq![item],
        pool.after_destroy().after_release(item).try_acquire_token() == None::<T>,
        pool.after_destroy().after_release(item).inv(),
        pool.closed ==> pool.permits == 0 && pool.handed == 0,
{
    assert(Seq::<T>::empty().push(item) =~= seq![item]);
}

/// Timeouts come from deadlines alone and lose no permit: a caller is told
/// `Timeout` exactly when its deadline has passed. The store, the size and the
/// number of permits are then as they were; a permit that the caller had in
/// hand has gone to another pending caller or to the semaphore.
pub proof fn lemma_timeout_only_on_deadline<T>(pool: PoolState<T>, event: AcquireEvent)
    requires
        pool.inv(),
    ensures
        pool.acquire_step(event) == AcquireStep::<Result<T, PoolError>>::Done(
            Err(PoolError::Timeout),
        ) <==> event == AcquireEvent::TimedOut,
        pool.after_acquire(AcquireEvent::TimedOut) == pool.left(),
        pool.left().permits + pool.left().handed == pool.permits + pool.handed,
        pool.left().handed <= pool.left().pending,
        pool.left().free == pool.free,
        pool.left().closed == pool.closed,
        pool.left().size == pool.size,
        pool.left().inv(),
{
}

} // verus!
