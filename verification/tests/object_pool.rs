use resource_pool::object_pool::{GenericObjectPool, ObjectPoolError};
use resource_pool::pool::{AcquireEvent, AcquireStep, PoolError};
use resource_pool::text::decimal_text;

#[test]
fn new_object_pool_holds_every_object_free() {
    let pool = GenericObjectPool::new(vec!["a", "b", "c"]);
    assert_eq!(pool.slot_count(), 3);
    assert_eq!(pool.available_count(), 3);
    assert_eq!(pool.size(), 3);
    assert_eq!(pool.pending_count(), 0);
    assert_eq!(pool.get_resource(0), Ok(&"a"));
    assert_eq!(pool.get_resource(1), Ok(&"b"));
    assert_eq!(pool.get_resource(2), Ok(&"c"));
    assert_eq!(pool.get_resource(3), Err(ObjectPoolError::InvalidResource));
}

#[test]
fn acquire_names_the_slot_of_the_object() {
    let mut pool = GenericObjectPool::new(vec!["a", "b"]);
    assert_eq!(pool.acquire(), Ok(1));
    assert_eq!(pool.acquire(), Ok(0));
    assert_eq!(pool.acquire(), Err(ObjectPoolError::NoResources));
    assert_eq!(pool.available_count(), 0);
}

#[test]
fn release_returns_an_object_by_its_slot() {
    let mut pool = GenericObjectPool::new(vec!["a", "b"]);
    assert_eq!(pool.acquire(), Ok(1));
    assert_eq!(pool.release(1), Ok(()));
    assert_eq!(pool.available_count(), 2);
    assert_eq!(pool.acquire(), Ok(1));
}

#[test]
fn release_refuses_a_slot_that_is_not_the_pools() {
    let mut pool = GenericObjectPool::new(vec!["a"]);
    assert_eq!(pool.release(1), Err(ObjectPoolError::NotInPool));
    assert_eq!(pool.available_count(), 1);
    assert_eq!(pool.remove_one(), (true, Some("a")));
    assert_eq!(pool.release(0), Err(ObjectPoolError::NotInPool));
    assert_eq!(pool.available_count(), 0);
}

#[test]
fn add_gives_the_object_a_new_slot() {
    let mut pool = GenericObjectPool::new(vec!["a"]);
    pool.add("b");
    assert_eq!(pool.slot_count(), 2);
    assert_eq!(pool.size(), 2);
    assert_eq!(pool.get_resource(1), Ok(&"b"));
    assert_eq!(pool.acquire(), Ok(1));
}

#[test]
fn remove_one_vacates_the_slot() {
    let mut pool = GenericObjectPool::new(vec!["a", "b"]);
    assert_eq!(pool.remove_one(), (true, Some("b")));
    assert_eq!(pool.size(), 1);
    assert_eq!(pool.slot_count(), 2);
    assert_eq!(pool.get_resource(1), Err(ObjectPoolError::InvalidResource));
    assert_eq!(pool.acquire(), Ok(0));
    assert_eq!(pool.remove_one(), (false, None));
}

#[test]
fn acquire_reports_a_vacant_slot() {
    let mut pool = GenericObjectPool::new(vec!["a"]);
    assert_eq!(pool.acquire(), Ok(0));
    assert_eq!(pool.release(0), Ok(()));
    assert_eq!(pool.release(0), Ok(()));
    assert_eq!(pool.remove_one(), (true, Some("a")));
    assert_eq!(pool.acquire(), Err(ObjectPoolError::InvalidResource));
    assert_eq!(pool.available_count(), 0);
}

#[test]
fn destroy_hands_back_the_handles_of_free_objects() {
    let mut pool = GenericObjectPool::new(vec!["a", "b", "c"]);
    assert_eq!(pool.acquire(), Ok(2));
    assert_eq!(pool.destroy(), vec!["a", "b"]);
    assert_eq!(pool.size(), 1);
    assert_eq!(pool.available_count(), 0);
    assert_eq!(pool.get_resource(0), Err(ObjectPoolError::InvalidResource));
    assert_eq!(pool.get_resource(2), Ok(&"c"));
    assert_eq!(pool.acquire(), Err(ObjectPoolError::NoResources));
}

#[test]
fn destroy_hands_back_each_handle_once() {
    let mut pool = GenericObjectPool::new(vec!["a", "b"]);
    assert_eq!(pool.acquire(), Ok(1));
    assert_eq!(pool.release(1), Ok(()));
    assert_eq!(pool.release(1), Ok(()));
    assert_eq!(pool.destroy(), vec!["a", "b"]);
    assert_eq!(pool.slot_count(), 2);
}

#[test]
fn acquire_idx_async_steps() {
    let mut pool = GenericObjectPool::new(vec!["a"]);
    assert_eq!(
        pool.acquire_idx_async(Some(200), AcquireEvent::Start),
        AcquireStep::Done(Ok(0))
    );
    assert_eq!(pool.acquire_idx_async(Some(200), AcquireEvent::Start), AcquireStep::Wait);
    assert_eq!(pool.pending_count(), 1);
    assert_eq!(
        pool.acquire_idx_async(Some(200), AcquireEvent::TimedOut),
        AcquireStep::Done(Err(ObjectPoolError::AcquireTimeout(200)))
    );
    assert_eq!(
        pool.acquire_idx_async(None, AcquireEvent::TimedOut),
        AcquireStep::Done(Err(ObjectPoolError::AcquireTimeout(0)))
    );
    assert_eq!(pool.pending_count(), 0);
    assert_eq!(pool.destroy(), Vec::<&str>::new());
    assert_eq!(
        pool.acquire_idx_async(None, AcquireEvent::Start),
        AcquireStep::Done(Err(ObjectPoolError::Pool(PoolError::Closed)))
    );
}

#[test]
fn object_pool_error_texts() {
    assert_eq!(ObjectPoolError::NoResources.to_string(), "No resources available");
    assert_eq!(ObjectPoolError::InvalidResource.to_string(), "Resource invalid or removed");
    assert_eq!(ObjectPoolError::NotInPool.to_string(), "Resource not belonging to pool");
    assert_eq!(
        ObjectPoolError::AcquireTimeout(200).to_string(),
        "Failed to acquire resource within 200ms timeout"
    );
    assert_eq!(
        ObjectPoolError::AcquireTimeout(0).to_string(),
        format!("Failed to acquire resource within {:?}ms timeout", 0u32)
    );
    assert_eq!(ObjectPoolError::Pool(PoolError::Empty).to_string(), "Pool empty");
    assert_eq!(ObjectPoolError::Pool(PoolError::Closed).to_string(), "Pool closed");
}

#[test]
fn decimal_text_matches_the_standard_rendering() {
    assert_eq!(decimal_text(0), "0");
    assert_eq!(decimal_text(7), "7");
    assert_eq!(decimal_text(10), "10");
    assert_eq!(decimal_text(65536), "65536");
    assert_eq!(decimal_text(1234567890), "1234567890");
    assert_eq!(decimal_text(u32::MAX), format!("{}", u32::MAX));
}

#[test]
fn destroyed_object_pool_has_no_permit_and_no_size() {
    let mut pool = GenericObjectPool::new(vec!["a", "b", "c"]);
    assert_eq!(pool.destroy(), vec!["a", "b", "c"]);
    assert_eq!(pool.available_count(), 0);
    assert_eq!(pool.size(), 0);
    assert_eq!(pool.slot_count(), 3);
}

#[test]
fn clear_vacates_every_slot_and_keeps_the_indices() {
    let mut pool = GenericObjectPool::new(vec!["a", "b", "c"]);
    assert_eq!(pool.acquire(), Ok(2));
    assert_eq!(pool.remove_one(), (true, Some("b")));
    assert_eq!(pool.clear(), vec!["a", "c"]);
    assert_eq!(pool.slot_count(), 3);
    assert_eq!(pool.available_count(), 1);
    assert_eq!(pool.size(), 2);
    assert_eq!(pool.get_resource(0), Err(ObjectPoolError::InvalidResource));
    assert_eq!(pool.get_resource(2), Err(ObjectPoolError::InvalidResource));
    assert_eq!(pool.acquire(), Err(ObjectPoolError::InvalidResource));
    assert_eq!(pool.clear(), Vec::<&str>::new());
}

#[test]
fn object_pool_has_room_for_what_it_lent() {
    let mut pool = GenericObjectPool::new(vec!["a"]);
    assert!(pool.has_room());
    assert_eq!(pool.acquire(), Ok(0));
    assert!(pool.has_room());
    assert_eq!(pool.destroy(), Vec::<&str>::new());
    assert!(pool.has_room());
}

#[test]
fn returned_object_goes_to_the_pending_caller() {
    let mut pool = GenericObjectPool::new(vec!["a"]);
    assert_eq!(pool.acquire(), Ok(0));
    assert_eq!(pool.acquire_idx_async(None, AcquireEvent::Start), AcquireStep::Wait);
    assert_eq!(pool.release(0), Ok(()));
    assert_eq!(pool.available_count(), 0);
    assert_eq!(pool.acquire(), Err(ObjectPoolError::NoResources));
    assert_eq!(pool.remove_one(), (false, None));
    assert_eq!(
        pool.acquire_idx_async(None, AcquireEvent::Woken),
        AcquireStep::Done(Ok(0))
    );
    assert_eq!(pool.pending_count(), 0);
}
