use deadpool_libsql::managed::{
    Admission, Metrics, Object, ObjectInner, Pool, PoolError, RecycleError, RecycleResult,
    Refusal, Registry, Released, WeakPool,
};

fn construct(
    registry: &mut Registry<&'static str>,
    pool: WeakPool,
    name: &'static str,
    now: u64,
) -> Object<&'static str> {
    match registry.reserve(pool) {
        Ok(Admission::Create(permit)) => {
            let made: Result<&'static str, String> = Ok(name);
            registry.created(permit, made, now).unwrap()
        }
        other => panic!("expected a permit for a construction, got {:?}", other),
    }
}

#[test]
fn reserve_offers_construction_when_nothing_is_idle() {
    let mut registry: Registry<&'static str> = Registry::new();
    let pool = registry.add_pool(1);
    match registry.reserve(pool) {
        Ok(Admission::Create(permit)) => {
            assert_eq!(permit.pool(), pool);
            assert_eq!(registry.upgrade(pool).unwrap().outstanding(), 1);
            registry.cancel(permit);
            assert_eq!(registry.upgrade(pool).unwrap().outstanding(), 0);
        }
        other => panic!("expected a permit for a construction, got {:?}", other),
    }
}

#[test]
fn reserve_is_refused_while_every_permit_is_out() {
    let mut registry: Registry<&'static str> = Registry::new();
    let pool = registry.add_pool(1);
    let loan = construct(&mut registry, pool, "a", 5);
    assert!(matches!(registry.reserve(pool), Err(Refusal::Busy)));
    assert_eq!(registry.upgrade(pool).unwrap().outstanding(), 1);
    let timeout: PoolError<String> = PoolError::refused(Refusal::Busy);
    assert!(matches!(timeout, PoolError::Timeout));
    let closed: PoolError<String> = PoolError::refused(Refusal::Closed);
    assert!(matches!(closed, PoolError::Closed));
    drop(loan);
}

#[test]
fn reserve_on_a_pool_that_is_gone_is_refused_as_closed() {
    let mut registry: Registry<&'static str> = Registry::new();
    let pool = registry.add_pool(1);
    assert!(registry.remove_pool(pool).is_some());
    assert!(matches!(registry.reserve(pool), Err(Refusal::Closed)));
}

#[test]
fn reserve_offers_the_idle_resource_for_validation() {
    let mut registry: Registry<&'static str> = Registry::new();
    let pool = registry.add_pool(2);
    let mut loan = construct(&mut registry, pool, "a", 5);
    assert_eq!(loan.release(&mut registry), Released::Returned);

    match registry.reserve(pool) {
        Ok(Admission::Recycle(permit, inner)) => {
            assert_eq!(inner.obj, "a");
            assert_eq!(inner.metrics, Metrics { id: 0, created_at: 5, recycle_count: 0 });
            assert_eq!(registry.upgrade(pool).unwrap().idle(), 0);
            assert_eq!(registry.upgrade(pool).unwrap().outstanding(), 1);

            let passed: RecycleResult<String> = Ok(());
            let again = permit.recycled(inner, passed).unwrap();
            assert_eq!(Object::id(&again), 0);
            assert_eq!(
                *Object::metrics(&again),
                Metrics { id: 0, created_at: 5, recycle_count: 1 }
            );
            assert_eq!(Object::get(&again), Some(&"a"));
            assert_eq!(Object::weak_pool(&again), pool);
        }
        other => panic!("expected a resource to validate, got {:?}", other),
    }
}

#[test]
fn failed_validation_leaves_only_the_permit() {
    let mut registry: Registry<&'static str> = Registry::new();
    let pool = registry.add_pool(1);
    let mut loan = construct(&mut registry, pool, "a", 5);
    assert_eq!(loan.release(&mut registry), Released::Returned);

    match registry.reserve(pool) {
        Ok(Admission::Recycle(permit, inner)) => {
            let failed: RecycleResult<String> = Err(RecycleError::Backend("reset".to_string()));
            let permit = permit.recycled(inner, failed).unwrap_err();
            assert_eq!(permit.pool(), pool);
            assert_eq!(registry.upgrade(pool).unwrap().idle(), 0);
            assert_eq!(registry.upgrade(pool).unwrap().outstanding(), 1);

            let made: Result<&'static str, String> = Ok("b");
            let replacement = registry.created(permit, made, 9).unwrap();
            assert_eq!(
                *Object::metrics(&replacement),
                Metrics { id: 1, created_at: 9, recycle_count: 0 }
            );
            assert_eq!(Object::get(&replacement), Some(&"b"));
            assert_eq!(registry.upgrade(pool).unwrap().outstanding(), 1);
        }
        other => panic!("expected a resource to validate, got {:?}", other),
    }
}

#[test]
fn created_passes_the_backends_error_on() {
    let mut registry: Registry<&'static str> = Registry::new();
    let pool = registry.add_pool(1);
    match registry.reserve(pool) {
        Ok(Admission::Create(permit)) => {
            let made: Result<&'static str, String> = Err("no route".to_string());
            match registry.created(permit, made, 1) {
                Err(PoolError::Backend(error)) => assert_eq!(error, "no route"),
                other => panic!("expected the backend's error, got {:?}", other),
            }
            assert_eq!(registry.upgrade(pool).unwrap().outstanding(), 0);
            assert_eq!(registry.upgrade(pool).unwrap().next_id(), 0);
        }
        other => panic!("expected a permit for a construction, got {:?}", other),
    }
}

#[test]
fn created_for_a_pool_that_is_gone_is_closed() {
    let mut registry: Registry<&'static str> = Registry::new();
    let pool = registry.add_pool(1);
    match registry.reserve(pool) {
        Ok(Admission::Create(permit)) => {
            let _ = registry.remove_pool(pool);
            let made: Result<&'static str, String> = Ok("late");
            assert!(matches!(registry.created(permit, made, 1), Err(PoolError::Closed)));
        }
        other => panic!("expected a permit for a construction, got {:?}", other),
    }
}

#[test]
fn cancel_after_the_pool_is_gone_changes_nothing() {
    let mut registry: Registry<&'static str> = Registry::new();
    let pool = registry.add_pool(1);
    let witness = registry.add_pool(1);
    let held = construct(&mut registry, witness, "w", 1);
    match registry.reserve(pool) {
        Ok(Admission::Create(permit)) => {
            let _ = registry.remove_pool(pool);
            registry.cancel(permit);
            assert_eq!(registry.upgrade(witness).unwrap().outstanding(), 1);
        }
        other => panic!("expected a permit for a construction, got {:?}", other),
    }
    drop(held);
}

#[test]
fn pool_steps_by_hand() {
    let mut pool: Pool<char> = Pool::new(2);
    assert_eq!((pool.capacity(), pool.idle(), pool.outstanding(), pool.next_id()), (2, 0, 0, 0));
    assert_eq!(pool.free(), 2);
    assert!(!pool.is_closed());

    assert!(matches!(pool.reserve(), Ok(None)));
    let a = pool.enroll('a', 3).unwrap();
    assert_eq!(a.metrics, Metrics { id: 0, created_at: 3, recycle_count: 0 });
    assert!(matches!(pool.reserve(), Ok(None)));
    let b = pool.enroll('b', 4).unwrap();
    assert_eq!(b.metrics.id, 1);
    assert!(matches!(pool.reserve(), Err(Refusal::Busy)));
    assert_eq!((pool.idle(), pool.outstanding(), pool.next_id()), (0, 2, 2));
    assert_eq!(pool.free(), 0);

    assert!(pool.return_object(a).is_none());
    assert_eq!((pool.idle(), pool.outstanding()), (1, 1));
    assert_eq!(pool.free(), 0);
    pool.release_permit();
    assert_eq!((pool.idle(), pool.outstanding()), (1, 0));
    assert_eq!(pool.free(), 1);

    // No permit is out that `b` can have come under: it is not kept.
    let rejected = pool.return_object(b).unwrap();
    assert_eq!(rejected.obj, 'b');
    assert_eq!((pool.idle(), pool.outstanding()), (1, 0));

    match pool.reserve() {
        Ok(Some(candidate)) => assert_eq!(candidate.obj, 'a'),
        other => panic!("expected the idle resource, got {:?}", other),
    }
    assert_eq!((pool.idle(), pool.outstanding()), (0, 1));
}

#[test]
fn pool_does_not_keep_a_resource_it_never_named() {
    let mut pool: Pool<char> = Pool::new(2);
    assert!(matches!(pool.reserve(), Ok(None)));
    let stranger = ObjectInner {
        obj: 'x',
        metrics: Metrics { id: 0, created_at: 0, recycle_count: 0 },
    };
    let rejected = pool.return_object(stranger).unwrap();
    assert_eq!(rejected.obj, 'x');
    assert_eq!((pool.idle(), pool.outstanding()), (0, 0));
}

#[test]
fn releasing_more_permits_than_are_out_stops_at_zero() {
    let mut pool: Pool<char> = Pool::new(1);
    pool.release_permit();
    assert_eq!(pool.outstanding(), 0);
    assert!(matches!(pool.reserve(), Ok(None)));
    assert_eq!(pool.outstanding(), 1);
}

#[test]
fn closed_pool_steps() {
    let mut pool: Pool<char> = Pool::new(2);
    assert!(matches!(pool.reserve(), Ok(None)));
    let a = pool.enroll('a', 1).unwrap();
    assert!(matches!(pool.reserve(), Ok(None)));
    let b = pool.enroll('b', 2).unwrap();
    assert!(pool.return_object(a).is_none());

    let drained = pool.close();
    assert_eq!(drained.len(), 1);
    assert_eq!(drained[0].obj, 'a');
    assert!(pool.is_closed());
    assert!(matches!(pool.reserve(), Err(Refusal::Closed)));
    assert_eq!(pool.return_object(b).unwrap().obj, 'b');
    assert_eq!((pool.idle(), pool.outstanding()), (0, 0));
}

#[test]
fn recycle_count_stops_at_its_largest_value() {
    let metrics = Metrics { id: 4, created_at: 9, recycle_count: usize::MAX - 1 };
    let once = metrics.recycled();
    assert_eq!(once, Metrics { id: 4, created_at: 9, recycle_count: usize::MAX });
    assert_eq!(once.recycled(), once);
    let first = Metrics { id: 4, created_at: 9, recycle_count: 0 }.recycled();
    assert_eq!(first.recycle_count, 1);
}

#[test]
fn timed_out_gives_the_permit_back() {
    let mut registry: Registry<&'static str> = Registry::new();
    let pool = registry.add_pool(1);
    match registry.reserve(pool) {
        Ok(Admission::Create(permit)) => {
            assert!(matches!(registry.reserve(pool), Err(Refusal::Busy)));
            let error: PoolError<String> = registry.timed_out(permit);
            assert!(matches!(error, PoolError::Timeout));
            assert_eq!(registry.upgrade(pool).unwrap().outstanding(), 0);
            assert!(matches!(registry.reserve(pool), Ok(Admission::Create(_))));
        }
        other => panic!("expected a permit for a construction, got {:?}", other),
    }
}
