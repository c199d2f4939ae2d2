//! What holds of a pool and of a registry whatever their callers do.
//!
//! Callers act on a pool one step at a time, and the steps of many callers
//! interleave in any order. So a law about "whatever happens" is stated
//! about every sequence of steps: [`PoolEvent`] and [`RegistryEvent`] name
//! the steps, and each operation of a pool or a registry says which step
//! it takes.

use vstd::prelude::*;
use super::errors::{PoolError, RecycleError};
use super::manager::examined;
use super::metrics::ObjectInner;
use super::object::{ObjectView, Released};
use super::pool::{PoolEvent, PoolView};
use super::registry::{RegistryEvent, RegistryView, WeakPool};

verus! {

impl<T> PoolView<T> {
    /// The pool after a sequence of steps.
    pub open spec fn run(self, events: Seq<PoolEvent<T>>) -> PoolView<T>
        decreases events.len(),
    {
        if events.len() == 0 {
            self
        } else {
            self.run(events.drop_last()).step(events.last())
        }
    }

    /// Whether the step `event`, taken now, gives a new resource its
    /// identity. The identity is then `self.next_id`.
    pub open spec fn gives_id(self, event: PoolEvent<T>) -> bool {
        event is Enroll && self.has_id()
    }
}

impl<T> RegistryView<T> {
    /// The registry after a sequence of steps.
    pub open spec fn run(self, events: Seq<RegistryEvent<T>>) -> RegistryView<T>
        decreases events.len(),
    {
        if events.len() == 0 {
            self
        } else {
            self.run(events.drop_last()).step(events.last())
        }
    }
}

/// Every step keeps a pool well formed and leaves its capacity alone, and
/// no step takes an identity back.
pub proof fn lemma_step<T>(pool: PoolView<T>, event: PoolEvent<T>)
    requires
        pool.wf(),
    ensures
        pool.step(event).wf(),
        pool.step(event).capacity == pool.capacity,
        pool.step(event).next_id >= pool.next_id,
        pool.gives_id(event) ==> pool.step(event).next_id == pool.next_id + 1,
{
}

/// The capacity bound: whatever the callers of a pool do, and in whatever
/// order their steps interleave, the resources alive (those out on loan or
/// under construction, and those idle) never exceed the capacity.
pub proof fn lemma_capacity_bound<T>(pool: PoolView<T>, events: Seq<PoolEvent<T>>)
    requires
        pool.wf(),
    ensures
        pool.run(events).wf(),
        pool.run(events).capacity == pool.capacity,
        pool.run(events).live() <= pool.capacity,
        pool.run(events).next_id >= pool.next_id,
    decreases events.len(),
{
    if events.len() > 0 {
        lemma_capacity_bound(pool, events.drop_last());
    }
}

/// Of two resources that a pool takes under management, the later one gets
/// the greater identity: if the steps at `earlier` and at `later` each give
/// a resource its identity, the one given at `earlier` is below the one
/// given at `later`.
pub proof fn lemma_ids_increase<T>(
    pool: PoolView<T>,
    events: Seq<PoolEvent<T>>,
    earlier: int,
    later: int,
)
    requires
        pool.wf(),
        0 <= earlier < later < events.len(),
        pool.run(events.take(earlier)).gives_id(events[earlier]),
        pool.run(events.take(later)).gives_id(events[later]),
    ensures
        pool.run(events.take(earlier)).next_id < pool.run(events.take(later)).next_id,
{
    lemma_counter_passes(pool, events, earlier, later);
}

/// Once an identity is given, the counter stays above it.
proof fn lemma_counter_passes<T>(
    pool: PoolView<T>,
    events: Seq<PoolEvent<T>>,
    earlier: int,
    at: int,
)
    requires
        pool.wf(),
        0 <= earlier < at <= events.len(),
        pool.run(events.take(earlier)).gives_id(events[earlier]),
    ensures
        pool.run(events.take(earlier)).next_id < pool.run(events.take(at)).next_id,
    decreases at,
{
    let before = events.take(at - 1);
    assert(events.take(at).drop_last() =~= before);
    lemma_capacity_bound(pool, before);
    if earlier < at - 1 {
        lemma_counter_passes(pool, events, earlier, at - 1);
    }
}

/// A resource that fails its validation reaches no caller. The caller that
/// was offered it gets what the one construction that follows comes to:
/// the resource that the backend made, under an identity above the one of
/// the resource that failed; or the backend's error; or `Closed`, where no
/// identity is left.
///
/// `after` is the candidate as the validation left it, `reason` is why it
/// failed, and `made` is what the backend answers to the construction.
pub proof fn lemma_discarded_is_replaced<T, E>(
    registry: RegistryView<T>,
    handle: WeakPool,
    after: ObjectInner<T>,
    reason: RecycleError<E>,
    made: Result<T, E>,
    now: u64,
)
    requires
        registry.wf(),
        registry.reserved(handle) is Ok,
        examined(registry.reserved(handle)->Ok_0, Some(after)),
    ensures
        ({
            let reserved = registry.pool_step(handle, PoolEvent::Reserve);
            let settled = reserved.settled(
                handle,
                Some(after),
                Err::<(), RecycleError<E>>(reason),
                made,
                now,
            );
            &&& settled == reserved.created(handle, made, now)
            &&& match settled.1 {
                Ok(loan) => {
                    &&& made is Ok
                    &&& loan == ObjectView::fresh(
                        handle,
                        made->Ok_0,
                        registry.pools[handle].next_id,
                        now,
                    )
                    &&& loan.inner->0.metrics.id > after.metrics.id
                },
                Err(PoolError::Backend(error)) => made == Err::<T, E>(error),
                Err(PoolError::Closed) => made is Ok && !registry.pools[handle].has_id(),
                Err(PoolError::Timeout) => false,
            }
        }),
{
}

/// A resource that passes its validation is the caller's loan, under the
/// identity that it had, with one more recycling on its record. Nothing is
/// constructed, and the pool is as the grant of the permit left it.
pub proof fn lemma_validated_is_reused<T, E>(
    registry: RegistryView<T>,
    handle: WeakPool,
    after: ObjectInner<T>,
    made: Result<T, E>,
    now: u64,
)
    requires
        registry.wf(),
        registry.reserved(handle) is Ok,
        examined(registry.reserved(handle)->Ok_0, Some(after)),
    ensures
        ({
            let candidate = registry.reserved(handle)->Ok_0->0;
            let reserved = registry.pool_step(handle, PoolEvent::Reserve);
            let settled = reserved.settled(
                handle,
                Some(after),
                Ok::<(), RecycleError<E>>(()),
                made,
                now,
            );
            &&& settled.0 == reserved
            &&& settled.0.pools[handle].next_id == registry.pools[handle].next_id
            &&& settled.1 is Ok
            &&& settled.1->Ok_0.pool == handle
            &&& settled.1->Ok_0.inner is Some
            &&& settled.1->Ok_0.inner->0.obj == after.obj
            &&& settled.1->Ok_0.inner->0.metrics == candidate.metrics.recycled()
            &&& settled.1->Ok_0.inner->0.metrics.id == candidate.metrics.id
        }),
{
}

/// No permit leaks. An acquisition that was granted a permit ends with the
/// permit in the caller's loan, or back in the pool: whatever the backend
/// answered, the pool has one more permit out than before if the caller
/// got a loan, and as many as before if the caller got an error.
pub proof fn lemma_no_permit_leaks<T, E>(
    registry: RegistryView<T>,
    handle: WeakPool,
    after: Option<ObjectInner<T>>,
    checked: Result<(), RecycleError<E>>,
    made: Result<T, E>,
    now: u64,
)
    requires
        registry.wf(),
        registry.reserved(handle) is Ok,
        examined(registry.reserved(handle)->Ok_0, after),
    ensures
        ({
            let settled = registry.pool_step(handle, PoolEvent::Reserve).settled(
                handle,
                after,
                checked,
                made,
                now,
            );
            &&& settled.0.wf()
            &&& settled.0.alive(handle)
            &&& settled.1 is Ok ==> settled.0.pools[handle].outstanding
                == registry.pools[handle].outstanding + 1
            &&& settled.1 is Err ==> settled.0.pools[handle].outstanding
                == registry.pools[handle].outstanding
            &&& settled.1 is Ok ==> settled.1->Ok_0.pool == handle && settled.1->Ok_0.inner is Some
        }),
{
}

/// Detaching frees a permit at once: in a pool that is not shut down,
/// after the resource of a loan was taken out, the next caller is granted
/// a permit without waiting for anything to come back.
pub proof fn lemma_detach_frees_permit<T>(registry: RegistryView<T>, loan: ObjectView<T>)
    requires
        registry.wf(),
        registry.alive(loan.pool),
        !registry.pools[loan.pool].closed,
        registry.pools[loan.pool].outstanding > 0,
    ensures
        registry.pool_step(loan.pool, PoolEvent::Release).grants(loan.pool),
        registry.pool_step(loan.pool, PoolEvent::Release).pools[loan.pool].live()
            == registry.pools[loan.pool].live() - 1,
{
}

/// A loan is released exactly once. The first release of a loan that
/// holds a resource either puts the resource back into the idle collection
/// of its pool, where it is offered first, or destroys it and puts it
/// nowhere. Releasing the loan again changes nothing and reports that
/// nothing happened.
pub proof fn lemma_release_once<T>(registry: RegistryView<T>, loan: ObjectView<T>)
    requires
        registry.wf(),
        loan.inner is Some,
    ensures
        loan.fate(registry) == Released::Returned ==> {
            &&& registry.alive(loan.pool)
            &&& loan.release(registry).pools[loan.pool].idle
                == registry.pools[loan.pool].idle.push(loan.inner->0)
            &&& loan.release(registry).pools[loan.pool].candidate() == loan.inner
            &&& loan.release(registry).pools[loan.pool].live() == registry.pools[loan.pool].live()
        },
        loan.fate(registry) == Released::Destroyed ==> {
            ||| !registry.alive(loan.pool) && loan.release(registry) == registry
            ||| registry.alive(loan.pool) && loan.release(registry) == registry.pool_step(
                loan.pool,
                PoolEvent::Release,
            )
        },
        loan.fate(registry) != Released::Nothing,
        loan.spent().release(loan.release(registry)) == loan.release(registry),
        loan.spent().fate(loan.release(registry)) == Released::Nothing,
        loan.spent().spent() == loan.spent(),
{
    if registry.alive(loan.pool) && !registry.keeps(loan.pool, loan.inner->0) {
        assert(loan.release(registry).pools =~= registry.pool_step(
            loan.pool,
            PoolEvent::Release,
        ).pools);
    }
}

/// Every step keeps a registry well formed, forgets no handle that was
/// given out, and revives no pool that is gone.
pub proof fn lemma_registry_step<T>(registry: RegistryView<T>, event: RegistryEvent<T>)
    requires
        registry.wf(),
    ensures
        registry.step(event).wf(),
        registry.issued.subset_of(registry.step(event).issued),
        forall|handle: WeakPool|
            registry.issued.contains(handle) && !registry.alive(handle)
                ==> !#[trigger] registry.step(event).alive(handle),
{
}

/// The capacity bound, for every pool of a registry: whatever happens to
/// the registry, pools being created and dropped among it, no pool in it
/// ever has more resources alive than its capacity allows.
pub proof fn lemma_registry_capacity_bound<T>(
    registry: RegistryView<T>,
    events: Seq<RegistryEvent<T>>,
)
    requires
        registry.wf(),
    ensures
        registry.run(events).wf(),
        forall|handle: WeakPool| #[trigger]
            registry.run(events).alive(handle) ==> registry.run(events).pools[handle].live()
                <= registry.run(events).pools[handle].capacity,
    decreases events.len(),
{
    if events.len() > 0 {
        lemma_registry_capacity_bound(registry, events.drop_last());
    }
}

/// A pool that was dropped stays dropped: whatever happens to the registry
/// afterwards, pools being created among it, its handle reaches no pool.
pub proof fn lemma_dropped_stays_dropped<T>(
    registry: RegistryView<T>,
    handle: WeakPool,
    events: Seq<RegistryEvent<T>>,
)
    requires
        registry.wf(),
        registry.issued.contains(handle),
        !registry.alive(handle),
    ensures
        registry.run(events).wf(),
        registry.run(events).issued.contains(handle),
        !registry.run(events).alive(handle),
    decreases events.len(),
{
    if events.len() > 0 {
        lemma_dropped_stays_dropped(registry, handle, events.drop_last());
    }
}

/// A loan may outlive its pool. Once the pool is dropped, and whatever
/// happens to the registry afterwards, releasing the loan destroys its
/// resource and changes no pool.
pub proof fn lemma_release_after_drop<T>(
    registry: RegistryView<T>,
    loan: ObjectView<T>,
    events: Seq<RegistryEvent<T>>,
)
    requires
        registry.wf(),
        registry.issued.contains(loan.pool),
        loan.inner is Some,
    ensures
        loan.fate(registry.dropped(loan.pool).run(events)) == Released::Destroyed,
        loan.release(registry.dropped(loan.pool).run(events)) == registry.dropped(loan.pool).run(
            events,
        ),
{
    lemma_dropped_stays_dropped(registry.dropped(loan.pool), loan.pool, events);
}

} // verus!
