use resource_pool::fast_pool::{CapacityError, FastPool, MAGIC_VALUE, MAX_CAPACITY};

#[test]
fn capacity_zero_is_refused() {
    assert_eq!(FastPool::new(0).err(), Some(CapacityError::Zero));
}

#[test]
fn capacity_above_the_limit_is_refused() {
    assert_eq!(FastPool::new(65537).err(), Some(CapacityError::TooLarge));
    assert_eq!(FastPool::new(u32::MAX).err(), Some(CapacityError::TooLarge));
}

#[test]
fn capacity_within_the_limit_is_kept() {
    assert_eq!(FastPool::new(1).ok().unwrap().get_capacity(), 1);
    assert_eq!(FastPool::new(4096).ok().unwrap().get_capacity(), 4096);
    assert_eq!(FastPool::new(65536).ok().unwrap().get_capacity(), 65536);
    assert_eq!(MAX_CAPACITY, 65536);
}

#[test]
fn magic_value_is_fixed() {
    let pool = FastPool::new(8).ok().unwrap();
    assert_eq!(pool.get_magic_value(), 0xBEEF_C0DE);
    assert_eq!(MAGIC_VALUE, 0xBEEF_C0DE);
}

#[test]
fn capacity_error_texts() {
    assert_eq!(CapacityError::Zero.to_string(), "Capacity must be greater than 0");
    assert_eq!(CapacityError::TooLarge.to_string(), "Capacity too large (max 65536)");
}
