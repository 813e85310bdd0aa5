//! The capacity rule of the fast pool, whose slots live in memory that the
//! host shares with its own runtime.

use vstd::prelude::*;

verus! {

/// The marker that the host writes into shared memory to recognise a pool.
pub const MAGIC_VALUE: u32 = 0xBEEF_C0DE;

/// The largest capacity a fast pool may have.
pub const MAX_CAPACITY: u32 = 65536;

/// Why a capacity was refused.
#[derive(Clone, Copy, Debug, PartialEq, Eq, Structural)]
pub enum CapacityError {
    /// The capacity was zero.
    Zero,
    /// The capacity was above `MAX_CAPACITY`.
    TooLarge,
}

impl CapacityError {
    /// The text that describes this error.
    pub open spec fn message(self) -> Seq<char> {
        match self {
            CapacityError::Zero => "Capacity must be greater than 0"@,
            CapacityError::TooLarge => "Capacity too large (max 65536)"@,
        }
    }

    /// Renders the error as text.
    pub fn to_string(&self) -> (text: String)
        ensures
            text@ == self.message(),
    {
        match self {
            CapacityError::Zero => "Capacity must be greater than 0".to_owned(),
            CapacityError::TooLarge => "Capacity too large (max 65536)".to_owned(),
        }
    }
}

/// A pool descriptor that holds nothing but a validated capacity.
pub struct FastPool {
    capacity: usize,
}

impl FastPool {
    #[verifier::type_invariant]
    spec fn in_range(self) -> bool {
        1 <= self.capacity <= MAX_CAPACITY
    }

    /// The capacity this pool was created with.
    pub closed spec fn capacity(self) -> nat {
        self.capacity as nat
    }

    /// What `new` makes of a capacity: zero and anything above `MAX_CAPACITY`
    /// are refused, each for its own reason.
    pub open spec fn refusal(capacity: u32) -> Option<CapacityError> {
        if capacity == 0 {
            Some(CapacityError::Zero)
        } else if capacity > MAX_CAPACITY {
            Some(CapacityError::TooLarge)
        } else {
            None
        }
    }

    /// Creates a fast pool with room for `capacity` slots.
    pub fn new(capacity: u32) -> (pool: Result<Self, CapacityError>)
        ensures
            match pool {
                Ok(made) => Self::refusal(capacity) is None && made.capacity() == capacity,
                Err(reason) => Self::refusal(capacity) == Some(reason),
            },
    {
        if capacity == 0 {
            return Err(CapacityError::Zero);
        }
        if capacity > MAX_CAPACITY {
            return Err(CapacityError::TooLarge);
        }
        Ok(FastPool { capacity: capacity as usize })
    }

    /// The capacity of the pool.
    pub fn get_capacity(&self) -> (capacity: u32)
        ensures
            capacity == self.capacity(),
            1 <= capacity <= MAX_CAPACITY,
    {
        proof {
            use_type_invariant(self);
        }
        self.capacity as u32
    }

    /// The marker by which the host validates its shared memory.
    pub fn get_magic_value(&self) -> (magic: u32)
        ensures
            magic == MAGIC_VALUE,
    {
        MAGIC_VALUE
    }
}

} // verus!
