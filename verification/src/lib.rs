//! A resource pool engine with machine-checked bookkeeping.
//!
//! The engine pairs an admission gate (a counting semaphore) with a slot store
//! (the free tokens) and two counters. Every operation is specified against a
//! mathematical model of the pool, and the proofs show that the semaphore and
//! the store never drift apart while the pool is open, and that no permit is
//! left once it is shut down.
//!
//! A token that comes back while callers wait is theirs: its permit is handed
//! to the pending callers and never reaches the semaphore, so no caller that
//! comes later can overtake them.
//!
//! The engine is sequential: every operation that changes the pool takes it by
//! exclusive borrow. A host that shares a pool among tasks puts it behind a
//! lock, drives a suspended caller through `CorePool::acquire_async`, and
//! resumes pending callers in the order they came.

pub mod fast_pool;
pub mod gate;
pub mod laws;
pub mod model;
pub mod object_pool;
pub mod pool;
pub mod text;

pub use fast_pool::FastPool;
pub use object_pool::GenericObjectPool;
pub use pool::{AcquireEvent, AcquireStep, CorePool, PoolError};
