//! The admission gate: a `tokio::sync::Semaphore` that the pool owns outright.
//!
//! Nothing in this file is proved. Each function below states what the
//! semaphore does when a single owner drives it through an exclusive borrow,
//! so that no task can be parked in its wait queue.

use tokio::sync::Semaphore;
use tokio::sync::TryAcquireError;
use vstd::prelude::*;

verus! {

/// `tokio::sync::Semaphore`, declared so that it can stand in a field and in
/// signatures. Nothing inside it is visible to the proofs.
#[verifier::external_type_specification]
#[verifier::external_body]
pub struct ExSemaphore(tokio::sync::Semaphore);

/// The number of permits in the semaphore's counter: what
/// `Semaphore::available_permits` reports.
pub uninterp spec fn semaphore_permits(gate: Semaphore) -> nat;

/// Whether the semaphore has been closed: what `Semaphore::is_closed` reports.
pub uninterp spec fn semaphore_closed(gate: Semaphore) -> bool;

/// The most permits a semaphore can hold. This is the value of
/// `Semaphore::MAX_PERMITS`, which is `usize::MAX >> 3`.
pub const MAX_PERMITS: usize = usize::MAX / 8;

/// What one non-blocking attempt to take a permit came to.
#[derive(Clone, Copy, Debug, PartialEq, Eq, Structural)]
pub enum Attempt {
    /// A permit was taken from the semaphore for good.
    Granted,
    /// The semaphore is open but holds no permit.
    NoPermits,
    /// The semaphore has been closed.
    Closed,
}

/// `Semaphore::new`: an open semaphore holding exactly `permits` permits.
/// It panics above `MAX_PERMITS`, which the precondition rules out.
#[verifier::external_body]
pub(crate) fn open_gate(permits: usize) -> (gate: Semaphore)
    requires
        permits <= MAX_PERMITS,
    ensures
        semaphore_permits(gate) == permits,
        !semaphore_closed(gate),
{
    Semaphore::new(permits)
}

/// `Semaphore::try_acquire`, followed by `SemaphorePermit::forget` on the
/// permit it hands out, so that dropping the permit does not give it back.
/// A closed semaphore refuses; an open one gives up one permit if it has any.
#[verifier::external_body]
pub(crate) fn try_take_permit(gate: &mut Semaphore) -> (attempt: Attempt)
    ensures
        attempt == (if semaphore_closed(*old(gate)) {
            Attempt::Closed
        } else if semaphore_permits(*old(gate)) == 0 {
            Attempt::NoPermits
        } else {
            Attempt::Granted
        }),
        semaphore_closed(*final(gate)) == semaphore_closed(*old(gate)),
        semaphore_permits(*final(gate)) == (if attempt == Attempt::Granted {
            (semaphore_permits(*old(gate)) - 1) as nat
        } else {
            semaphore_permits(*old(gate))
        }),
{
    match gate.try_acquire() {
        Ok(permit) => {
            permit.forget();
            Attempt::Granted
        },
        Err(TryAcquireError::NoPermits) => Attempt::NoPermits,
        Err(TryAcquireError::Closed) => Attempt::Closed,
    }
}

/// `Semaphore::add_permits`: with no waiter queued, all `n` permits go to the
/// counter, closed or not. It panics when the counter would pass
/// `MAX_PERMITS`, which the precondition rules out.
#[verifier::external_body]
pub(crate) fn give_permits(gate: &mut Semaphore, n: usize)
    requires
        semaphore_permits(*old(gate)) + n <= MAX_PERMITS,
    ensures
        semaphore_permits(*final(gate)) == semaphore_permits(*old(gate)) + n,
        semaphore_closed(*final(gate)) == semaphore_closed(*old(gate)),
{
    gate.add_permits(n)
}

/// `Semaphore::forget_permits`: takes up to `n` permits out of the counter for
/// good and says how many it took: `n`, or all there were if there were fewer.
/// Whether the semaphore is closed makes no difference and does not change.
#[verifier::external_body]
pub(crate) fn drop_permits(gate: &mut Semaphore, n: usize) -> (dropped: usize)
    ensures
        dropped == (if n <= semaphore_permits(*old(gate)) {
            n as nat
        } else {
            semaphore_permits(*old(gate))
        }),
        semaphore_permits(*final(gate)) == semaphore_permits(*old(gate)) - dropped,
        semaphore_closed(*final(gate)) == semaphore_closed(*old(gate)),
{
    gate.forget_permits(n)
}

/// `Semaphore::close`: the semaphore is closed from now on; the counter keeps
/// its value.
#[verifier::external_body]
pub(crate) fn close_gate(gate: &mut Semaphore)
    ensures
        semaphore_closed(*final(gate)),
        semaphore_permits(*final(gate)) == semaphore_permits(*old(gate)),
{
    gate.close()
}

/// `Semaphore::available_permits`: the counter's value.
#[verifier::external_body]
pub(crate) fn permits_of(gate: &Semaphore) -> (n: usize)
    ensures
        n == semaphore_permits(*gate),
{
    gate.available_permits()
}

/// `Semaphore::is_closed`: whether `close` has been called.
#[verifier::external_body]
pub(crate) fn gate_is_closed(gate: &Semaphore) -> (closed: bool)
    ensures
        closed == semaphore_closed(*gate),
{
    gate.is_closed()
}

} // verus!
