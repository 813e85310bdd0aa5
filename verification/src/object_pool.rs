//! A pool of host objects: a table of object handles, and a pool of the
//! indices into that table.

use crate::gate::MAX_PERMITS;
use crate::model::PoolState;
use crate::pool::{AcquireEvent, AcquireStep, CorePool, PoolError};
use crate::text::{decimal, decimal_text};
use vstd::prelude::*;
use vstd::string::StringExecFns;

verus! {

/// Why an operation on an object pool failed.
#[derive(Debug, Clone, PartialEq, Eq)]
pub enum ObjectPoolError {
    /// No object is free right now.
    NoResources,
    /// The slot that was asked for holds no object.
    InvalidResource,
    /// The object that was handed back is not one of the pool's.
    NotInPool,
    /// No object came free within the time allowed, in milliseconds.
    AcquireTimeout(u32),
    /// The underlying pool refused, for the reason given.
    Pool(PoolError),
}

impl ObjectPoolError {
    /// The text that describes this error.
    pub open spec fn message(self) -> Seq<char> {
        match self {
            ObjectPoolError::NoResources => "No resources available"@,
            ObjectPoolError::InvalidResource => "Resource invalid or removed"@,
            ObjectPoolError::NotInPool => "Resource not belonging to pool"@,
            ObjectPoolError::AcquireTimeout(timeout_ms) => "Failed to acquire resource within "@
                + decimal(timeout_ms as nat) + "ms timeout"@,
            ObjectPoolError::Pool(reason) => reason.message(),
        }
    }

    /// Renders the error as text.
    pub fn to_string(&self) -> (text: String)
        ensures
            text@ == self.message(),
    {
        match self {
            ObjectPoolError::NoResources => "No resources available".to_owned(),
            ObjectPoolError::InvalidResource => "Resource invalid or removed".to_owned(),
            ObjectPoolError::NotInPool => "Resource not belonging to pool".to_owned(),
            ObjectPoolError::AcquireTimeout(timeout_ms) => {
                let mut text = "Failed to acquire resource within ".to_owned();
                let digits = decimal_text(*timeout_ms);
                text.append(digits.as_str());
                text.append("ms timeout");
                text
            },
            ObjectPoolError::Pool(reason) => reason.to_string(),
        }
    }
}

/// An object pool as the contracts see it.
pub struct ObjectPoolState<R> {
    /// The table of object handles. A slot is vacated when its object leaves
    /// the pool for good, and is never used again.
    pub slots: Seq<Option<R>>,
    /// The pool of slot indices.
    pub inner: PoolState<usize>,
}

impl<R> ObjectPoolState<R> {
    /// The object pool that `handles` make: one slot for each, all of them free.
    pub open spec fn init(handles: Seq<R>) -> Self {
        ObjectPoolState {
            slots: Seq::new(handles.len(), |i: int| Some(handles[i])),
            inner: PoolState::init(Seq::new(handles.len(), |i: int| i as usize)),
        }
    }

    /// The invariant of an object pool: the pool of indices is sound, and every
    /// free index names a slot of the table.
    pub open spec fn inv(self) -> bool {
        &&& self.inner.inv()
        &&& self.slots.len() <= usize::MAX
        &&& forall|i: int| 0 <= i < self.inner.free.len() ==> self.inner.free[i] < self.slots.len()
    }

    /// Whether slot `idx` exists and holds an object.
    pub open spec fn occupied(self, idx: int) -> bool {
        0 <= idx < self.slots.len() && self.slots[idx] is Some
    }

    /// The table after the slots named by `indices` were vacated, one after the
    /// other. An index that names no slot changes nothing.
    pub open spec fn vacated(slots: Seq<Option<R>>, indices: Seq<usize>) -> Seq<Option<R>>
        decreases indices.len(),
    {
        if indices.len() == 0 {
            slots
        } else {
            let rest = Self::vacated(slots, indices.drop_last());
            let idx = indices.last() as int;
            if 0 <= idx < rest.len() {
                rest.update(idx, None)
            } else {
                rest
            }
        }
    }

    /// The handles that a table holds, in the order of the slots.
    pub open spec fn handles_of(slots: Seq<Option<R>>) -> Seq<R>
        decreases slots.len(),
    {
        if slots.len() == 0 {
            Seq::empty()
        } else if slots.last() is Some {
            Self::handles_of(slots.drop_last()).push(slots.last()->Some_0)
        } else {
            Self::handles_of(slots.drop_last())
        }
    }

    /// Whether one of `indices` names slot `idx`.
    pub open spec fn names(indices: Seq<usize>, idx: int) -> bool {
        exists|i: int| 0 <= i < indices.len() && #[trigger] indices[i] as int == idx
    }

    /// What vacating does to the table, slot by slot: the table keeps its
    /// length, a slot that one of `indices` names is vacant afterwards, and
    /// every other slot is as it was.
    pub proof fn lemma_vacated_slot_by_slot(slots: Seq<Option<R>>, indices: Seq<usize>)
        ensures
            Self::vacated(slots, indices).len() == slots.len(),
            forall|idx: int|
                0 <= idx < slots.len() ==> #[trigger] Self::vacated(slots, indices)[idx] == (
                if Self::names(indices, idx) {
                    None
                } else {
                    slots[idx]
                }),
        decreases indices.len(),
    {
        if indices.len() > 0 {
            let before = indices.drop_last();
            Self::lemma_vacated_slot_by_slot(slots, before);
            assert forall|idx: int| 0 <= idx < slots.len() implies #[trigger] Self::vacated(
                slots,
                indices,
            )[idx] == (if Self::names(indices, idx) {
                None
            } else {
                slots[idx]
            }) by {
                if Self::names(before, idx) {
                    let i = choose|i: int| 0 <= i < before.len() && #[trigger] before[i] as int == idx;
                    assert(indices[i] as int == idx);
                }
                if indices.last() as int == idx {
                    assert(indices[indices.len() - 1] as int == idx);
                }
                if Self::names(indices, idx) {
                    let i = choose|i: int|
                        0 <= i < indices.len() && #[trigger] indices[i] as int == idx;
                    if i < before.len() {
                        assert(before[i] as int == idx);
                    }
                }
            }
        }
    }

    /// The handles that leave the table when the slots named by `indices` are
    /// vacated one after the other: for each index the object its slot still
    /// holds at that moment, if any.
    pub open spec fn evicted(slots: Seq<Option<R>>, indices: Seq<usize>) -> Seq<R>
        decreases indices.len(),
    {
        if indices.len() == 0 {
            Seq::empty()
        } else {
            let before = Self::evicted(slots, indices.drop_last());
            let rest = Self::vacated(slots, indices.drop_last());
            let idx = indices.last() as int;
            if 0 <= idx < rest.len() && rest[idx] is Some {
                before.push(rest[idx]->Some_0)
            } else {
                before
            }
        }
    }
}

/// A pool of host objects. The pool keeps a handle to each object in a table
/// and lends out the table's indices; it never looks inside a handle.
pub struct GenericObjectPool<R> {
    resources: Vec<Option<R>>,
    inner: CorePool<usize>,
}

impl<R> View for GenericObjectPool<R> {
    type V = ObjectPoolState<R>;

    closed spec fn view(&self) -> ObjectPoolState<R> {
        ObjectPoolState { slots: self.resources@, inner: self.inner@ }
    }
}

impl<R> GenericObjectPool<R> {
    /// Creates a pool that holds the given objects, all of them free.
    pub fn new(initial_values: Vec<R>) -> (pool: Self)
        requires
            initial_values@.len() <= MAX_PERMITS,
        ensures
            pool@ == ObjectPoolState::init(initial_values@),
            pool@.inv(),
    {
        let mut resources: Vec<Option<R>> = Vec::new();
        let mut indices: Vec<usize> = Vec::new();
        let ghost handles = initial_values@;
        for val in it: initial_values
            invariant
                it.seq() == handles,
                resources@ == Seq::new(it.index() as nat, |i: int| Some(handles[i])),
                indices@ == Seq::new(it.index() as nat, |i: int| i as usize),
                handles.len() <= usize::MAX,
        {
            let i: usize = indices.len();
            resources.push(Some(val));
            indices.push(i);
            assert(resources@ =~= Seq::new((it.index() + 1) as nat, |i: int| Some(handles[i])));
            assert(indices@ =~= Seq::new((it.index() + 1) as nat, |i: int| i as usize));
        }
        GenericObjectPool { resources, inner: CorePool::new(indices) }
    }

    /// How many slots the table has, vacated ones included.
    pub fn slot_count(&self) -> (count: usize)
        ensures
            count == self@.slots.len(),
    {
        self.resources.len()
    }

    /// Reserves a free object without suspending and names its slot. The
    /// reservation stands even where the slot turns out to be vacant.
    pub fn acquire(&mut self) -> (slot: Result<usize, ObjectPoolError>)
        requires
            old(self)@.inv(),
        ensures
            final(self)@.inv(),
            final(self)@.slots == old(self)@.slots,
            final(self)@.inner == old(self)@.inner.after_try_acquire(),
            slot == (match old(self)@.inner.try_acquire_token() {
                Some(idx) => if old(self)@.occupied(idx as int) {
                    Ok::<usize, ObjectPoolError>(idx)
                } else {
                    Err(ObjectPoolError::InvalidResource)
                },
                None => Err(ObjectPoolError::NoResources),
            }),
    {
        match self.inner.try_acquire() {
            Some(idx) => {
                if idx < self.resources.len() && self.resources[idx].is_some() {
                    Ok(idx)
                } else {
                    Err(ObjectPoolError::InvalidResource)
                }
            },
            None => Err(ObjectPoolError::NoResources),
        }
    }

    /// Takes the next step of a reservation that may suspend its caller, and
    /// names the slot of the object it reserved. `timeout_ms` is the time the
    /// caller allows itself; it is reported back when the deadline passes.
    pub fn acquire_idx_async(
        &mut self,
        timeout_ms: Option<u32>,
        event: AcquireEvent,
    ) -> (step: AcquireStep<Result<usize, ObjectPoolError>>)
        requires
            old(self)@.inv(),
            event == AcquireEvent::Start && !old(self)@.inner.closed && old(self)@.inner.permits
                == 0 ==> old(self)@.inner.pending < usize::MAX,
        ensures
            final(self)@.inv(),
            final(self)@.slots == old(self)@.slots,
            final(self)@.inner == old(self)@.inner.after_acquire(event),
            step == (match old(self)@.inner.acquire_step(event) {
                AcquireStep::Done(Ok(idx)) => AcquireStep::Done(
                    Ok::<usize, ObjectPoolError>(idx),
                ),
                AcquireStep::Done(Err(PoolError::Timeout)) => AcquireStep::Done(
                    Err(
                        ObjectPoolError::AcquireTimeout(
                            match timeout_ms {
                                Some(ms) => ms,
                                None => 0,
                            },
                        ),
                    ),
                ),
                AcquireStep::Done(Err(reason)) => AcquireStep::Done(
                    Err(ObjectPoolError::Pool(reason)),
                ),
                AcquireStep::Wait => AcquireStep::Wait,
            }),
    {
        match self.inner.acquire_async(event) {
            AcquireStep::Done(Ok(idx)) => AcquireStep::Done(Ok(idx)),
            AcquireStep::Done(Err(PoolError::Timeout)) => {
                let allowed: u32 = match timeout_ms {
                    Some(ms) => ms,
                    None => 0,
                };
                AcquireStep::Done(Err(ObjectPoolError::AcquireTimeout(allowed)))
            },
            AcquireStep::Done(Err(reason)) => AcquireStep::Done(Err(ObjectPoolError::Pool(reason))),
            AcquireStep::Wait => AcquireStep::Wait,
        }
    }

    /// The handle in slot `idx`.
    pub fn get_resource(&self, idx: usize) -> (handle: Result<&R, ObjectPoolError>)
        ensures
            handle == (if self@.occupied(idx as int) {
                Ok::<&R, ObjectPoolError>(&self@.slots[idx as int]->Some_0)
            } else {
                Err(ObjectPoolError::InvalidResource)
            }),
    {
        if idx < self.resources.len() {
            match &self.resources[idx] {
                Some(handle) => Ok(handle),
                None => Err(ObjectPoolError::InvalidResource),
            }
        } else {
            Err(ObjectPoolError::InvalidResource)
        }
    }

    /// Returns the object in slot `idx` to the pool. A slot that does not exist
    /// or holds no object is refused, and the pool stays as it is.
    pub fn release(&mut self, idx: usize) -> (done: Result<(), ObjectPoolError>)
        requires
            old(self)@.inv(),
            old(self)@.occupied(idx as int) && !old(self)@.inner.closed ==> old(self)@.inner.permits
                + old(self)@.inner.handed < MAX_PERMITS,
        ensures
            final(self)@.inv(),
            final(self)@.slots == old(self)@.slots,
            old(self)@.occupied(idx as int) ==> done == Ok::<(), ObjectPoolError>(())
                && final(self)@.inner == old(self)@.inner.after_release(idx),
            !old(self)@.occupied(idx as int) ==> done == Err::<(), ObjectPoolError>(
                ObjectPoolError::NotInPool,
            ) && final(self)@.inner == old(self)@.inner,
    {
        if idx < self.resources.len() && self.resources[idx].is_some() {
            self.inner.release(idx);
            Ok(())
        } else {
            Err(ObjectPoolError::NotInPool)
        }
    }

    /// Grows the pool by one object, which gets a new slot at the end of the
    /// table and is free.
    pub fn add(&mut self, resource: R)
        requires
            old(self)@.inv(),
            !old(self)@.inner.closed ==> old(self)@.inner.permits + old(self)@.inner.handed
                < MAX_PERMITS,
            old(self)@.inner.size < usize::MAX,
        ensures
            final(self)@.inv(),
            final(self)@.slots == old(self)@.slots.push(Some(resource)),
            final(self)@.inner == old(self)@.inner.after_add(old(self)@.slots.len() as usize),
    {
        let new_idx: usize = self.resources.len();
        self.resources.push(Some(resource));
        self.inner.add(new_idx);
        assert(self.resources.len() == self.resources@.len());
    }

    /// Withdraws one free object for good, if one is free. Says whether an
    /// index was withdrawn, and hands back the handle that its slot held.
    pub fn remove_one(&mut self) -> (removed: (bool, Option<R>))
        requires
            old(self)@.inv(),
        ensures
            final(self)@.inv(),
            final(self)@.inner == old(self)@.inner.after_remove_one(),
            removed.0 == old(self)@.inner.admits(),
            !removed.0 ==> removed.1 is None && final(self)@.slots == old(self)@.slots,
            removed.0 ==> removed.1 == old(self)@.slots[old(self)@.inner.free.last() as int]
                && final(self)@.slots == old(self)@.slots.update(
                old(self)@.inner.free.last() as int,
                None,
            ),
    {
        match self.inner.remove_one() {
            Some(idx) => {
                let mut handle: Option<R> = None;
                std::mem::swap(&mut handle, &mut self.resources[idx]);
                (true, handle)
            },
            None => (false, None),
        }
    }

    /// Shuts the pool down and vacates the slot of every object that was free.
    /// Hands back the handles that those slots held, in the order in which the
    /// pool stored their indices. Objects that callers hold keep their slots.
    pub fn destroy(&mut self) -> (handles: Vec<R>)
        requires
            old(self)@.inv(),
        ensures
            final(self)@.inv(),
            final(self)@.inner == old(self)@.inner.after_destroy(),
            final(self)@.slots == ObjectPoolState::vacated(
                old(self)@.slots,
                old(self)@.inner.free,
            ),
            handles@ == ObjectPoolState::evicted(old(self)@.slots, old(self)@.inner.free),
    {
        let ghost slots = self@.slots;
        let drained = self.inner.destroy();
        let mut handles: Vec<R> = Vec::new();
        let mut i: usize = 0;
        assert(drained@.take(0) =~= Seq::<usize>::empty());
        while i < drained.len()
            invariant
                i <= drained.len(),
                self.inner@ == old(self)@.inner.after_destroy(),
                self.inner@.inv(),
                self.resources@ == ObjectPoolState::vacated(slots, drained@.take(i as int)),
                handles@ == ObjectPoolState::evicted(slots, drained@.take(i as int)),
            decreases drained.len() - i,
        {
            let idx: usize = drained[i];
            assert(drained@.take(i + 1).drop_last() =~= drained@.take(i as int));
            assert(drained@.take(i + 1).last() == idx);
            if idx < self.resources.len() {
                let mut handle: Option<R> = None;
                std::mem::swap(&mut handle, &mut self.resources[idx]);
                match handle {
                    Some(taken) => {
                        handles.push(taken);
                    },
                    None => {},
                }
            }
            i = i + 1;
        }
        assert(drained@.take(i as int) =~= drained@);
        assert(self.resources.len() == self.resources@.len());
        handles
    }

    /// Whether the pool can take an object back or take a new one: it is
    /// closed, or its permits are below the most a semaphore can hold.
    pub fn has_room(&self) -> (room: bool)
        requires
            self@.inv(),
        ensures
            room == (self@.inner.closed || self@.inner.permits + self@.inner.handed
                < MAX_PERMITS),
    {
        self.inner.has_room()
    }

    /// Vacates every slot of the table and hands back the handles that the
    /// slots held, in the order of the slots. The pool of indices is left as it
    /// is: an index that is reserved afterwards names a vacant slot.
    pub fn clear(&mut self) -> (handles: Vec<R>)
        requires
            old(self)@.inv(),
        ensures
            final(self)@.inv(),
            final(self)@.inner == old(self)@.inner,
            final(self)@.slots == Seq::new(old(self)@.slots.len(), |i: int| None::<R>),
            handles@ == ObjectPoolState::handles_of(old(self)@.slots),
    {
        let ghost slots = self@.slots;
        let mut handles: Vec<R> = Vec::new();
        let mut i: usize = 0;
        assert(slots.take(0) =~= Seq::<Option<R>>::empty());
        while i < self.resources.len()
            invariant
                i <= self.resources.len(),
                self.resources@.len() == slots.len(),
                self.inner@ == old(self)@.inner,
                forall|j: int| 0 <= j < i ==> self.resources@[j] is None,
                forall|j: int| i <= j < slots.len() ==> self.resources@[j] == slots[j],
                handles@ == ObjectPoolState::handles_of(slots.take(i as int)),
            decreases self.resources.len() - i,
        {
            assert(slots.take(i + 1).drop_last() =~= slots.take(i as int));
            assert(slots.take(i + 1).last() == slots[i as int]);
            let mut handle: Option<R> = None;
            std::mem::swap(&mut handle, &mut self.resources[i]);
            match handle {
                Some(taken) => {
                    handles.push(taken);
                },
                None => {},
            }
            i = i + 1;
        }
        assert(slots.take(i as int) =~= slots);
        assert(self.resources@ =~= Seq::new(slots.len(), |i: int| None::<R>));
        handles
    }

    /// How many objects could be reserved right now.
    pub fn available_count(&self) -> (count: usize)
        ensures
            count == self@.inner.permits,
    {
        self.inner.available_count()
    }

    /// How many objects the pool manages, free or reserved.
    pub fn size(&self) -> (count: usize)
        ensures
            count == self@.inner.size,
    {
        self.inner.size()
    }

    /// How many callers are suspended waiting for an object.
    pub fn pending_count(&self) -> (count: usize)
        ensures
            count == self@.inner.pending,
    {
        self.inner.pending_count()
    }
}

} // verus!
