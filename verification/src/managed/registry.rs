//! Where pools live, and how a loan finds its pool again.
//!
//! A loan must not keep its pool alive, and must notice when the pool is
//! gone. So pools are owned by a registry, and a loan holds only a handle:
//! a slot number and the generation of the pool that was in the slot when
//! the handle was made. A slot that is used again gets a later generation,
//! so a handle to a pool that was dropped never reaches another pool.

use vstd::prelude::*;
use super::errors::PoolError;
use super::manager::acquired;
use super::metrics::ObjectInner;
use super::object::{Admission, Object, ObjectView, Permit, Released};
use super::pool::{Pool, PoolEvent, PoolView, Refusal};

verus! {

/// A handle to a pool that does not keep the pool alive. It means
/// something only to the registry that gave it out.
#[derive(Clone, Copy, Debug, PartialEq, Eq, Structural)]
pub struct WeakPool {
    slot: usize,
    generation: u64,
}

struct Slot<T> {
    generation: u64,
    pool: Option<Pool<T>>,
}

/// The owner of a set of pools.
pub struct Registry<T> {
    slots: Vec<Slot<T>>,
}

/// One step in the life of a registry.
pub enum RegistryEvent<T> {
    /// A pool of the given capacity is created. The handle is the
    /// registry's choice, among those that it never gave out.
    Open(WeakPool, nat),
    /// The pool behind the handle is dropped.
    Drop(WeakPool),
    /// The pool behind the handle takes a step.
    Pool(WeakPool, PoolEvent<T>),
}

/// The registry as a mathematical value.
pub struct RegistryView<T> {
    /// The pools that are alive, each under its handle.
    pub pools: Map<WeakPool, PoolView<T>>,
    /// Every handle that was ever given out.
    pub issued: Set<WeakPool>,
}

impl<T> RegistryView<T> {
    /// A registry in which no pool was ever created.
    pub open spec fn empty() -> RegistryView<T> {
        RegistryView { pools: Map::empty(), issued: Set::empty() }
    }

    /// Whether the pool behind `handle` is alive.
    pub open spec fn alive(self, handle: WeakPool) -> bool {
        self.pools.contains_key(handle)
    }

    /// Every pool alive is well formed, and its handle was given out.
    pub open spec fn wf(self) -> bool {
        forall|handle: WeakPool| #[trigger]
            self.pools.contains_key(handle) ==> self.issued.contains(handle)
                && self.pools[handle].wf()
    }

    /// The registry in which the pool behind `handle` has become `pool`.
    pub open spec fn with(self, handle: WeakPool, pool: PoolView<T>) -> RegistryView<T> {
        RegistryView { pools: self.pools.insert(handle, pool), ..self }
    }

    /// The registry after a pool was created under the new handle `handle`.
    pub open spec fn opened(self, handle: WeakPool, capacity: nat) -> RegistryView<T> {
        RegistryView {
            pools: self.pools.insert(handle, PoolView::new(capacity)),
            issued: self.issued.insert(handle),
        }
    }

    /// The registry after the pool behind `handle` was dropped.
    pub open spec fn dropped(self, handle: WeakPool) -> RegistryView<T> {
        RegistryView { pools: self.pools.remove(handle), ..self }
    }

    /// The registry after the pool behind `handle` took the step `event`.
    /// A pool that is gone takes no step.
    pub open spec fn pool_step(self, handle: WeakPool, event: PoolEvent<T>) -> RegistryView<T> {
        if self.alive(handle) {
            self.with(handle, self.pools[handle].step(event))
        } else {
            self
        }
    }

    /// The registry after one step.
    pub open spec fn step(self, event: RegistryEvent<T>) -> RegistryView<T> {
        match event {
            RegistryEvent::Open(handle, capacity) => if self.issued.contains(handle) || capacity
                > usize::MAX {
                self
            } else {
                self.opened(handle, capacity)
            },
            RegistryEvent::Drop(handle) => self.dropped(handle),
            RegistryEvent::Pool(handle, event) => self.pool_step(handle, event),
        }
    }

    /// Whether the pool behind `handle` is alive and grants a permit now.
    pub open spec fn grants(self, handle: WeakPool) -> bool {
        self.alive(handle) && self.pools[handle].grants()
    }

    /// The answer to a caller that gets no permit: a pool that is gone
    /// answers like one that is shut down.
    pub open spec fn refusal(self, handle: WeakPool) -> Refusal {
        if self.alive(handle) {
            self.pools[handle].refusal()
        } else {
            Refusal::Closed
        }
    }

    /// What a caller is told that asks the pool behind `handle` for a
    /// permit: the resource to validate, nothing if it has to construct
    /// one, or why it gets no permit.
    pub open spec fn reserved(self, handle: WeakPool) -> Result<Option<ObjectInner<T>>, Refusal> {
        if self.grants(handle) {
            Ok(self.pools[handle].candidate())
        } else {
            Err(self.refusal(handle))
        }
    }

    /// Whether the pool behind `handle` is alive and has an identity left
    /// for one more resource.
    pub open spec fn has_id(self, handle: WeakPool) -> bool {
        self.alive(handle) && self.pools[handle].has_id()
    }

    /// Whether a resource that comes back to the pool behind `handle` is
    /// kept for reuse.
    pub open spec fn keeps(self, handle: WeakPool, inner: ObjectInner<T>) -> bool {
        self.alive(handle) && self.pools[handle].keeps(inner)
    }

    /// What a construction under a permit of the pool `permit` comes to:
    /// the registry afterwards, and what the caller gets.
    ///
    /// A resource that was constructed gets the pool's next identity and
    /// fresh metrics, and becomes a loan under the permit. Otherwise the
    /// permit goes back to the pool: the backend's error is passed on, and
    /// a resource for which no identity is left, or whose pool is gone, is
    /// destroyed and reported as `Closed`.
    pub open spec fn created<E>(self, permit: WeakPool, outcome: Result<T, E>, now: u64) -> (
        RegistryView<T>,
        Result<ObjectView<T>, PoolError<E>>,
    ) {
        match outcome {
            Ok(obj) => if self.has_id(permit) {
                (
                    self.pool_step(permit, PoolEvent::Enroll),
                    Ok(ObjectView::fresh(permit, obj, self.pools[permit].next_id, now)),
                )
            } else {
                (self.pool_step(permit, PoolEvent::Release), Err(PoolError::Closed))
            },
            Err(error) => (
                self.pool_step(permit, PoolEvent::Release),
                Err(PoolError::Backend(error)),
            ),
        }
    }
}

impl<T> View for Registry<T> {
    type V = RegistryView<T>;

    closed spec fn view(&self) -> RegistryView<T> {
        RegistryView {
            pools: Map::new(
                |handle: WeakPool| self.holds(handle),
                |handle: WeakPool| self.slots[handle.slot as int].pool->0@,
            ),
            issued: Set::new(
                |handle: WeakPool|
                    handle.slot < self.slots.len() && handle.generation
                        <= self.slots[handle.slot as int].generation,
            ),
        }
    }
}

impl<T> Registry<T> {
    spec fn holds(&self, handle: WeakPool) -> bool {
        &&& handle.slot < self.slots.len()
        &&& self.slots[handle.slot as int].generation == handle.generation
        &&& self.slots[handle.slot as int].pool is Some
    }

    /// If nothing changed since `before` but the pool behind `handle`, and
    /// that pool took the step `event`, the registry took that step.
    proof fn lemma_pool_stepped(&self, before: &Registry<T>, handle: WeakPool, event: PoolEvent<T>)
        requires
            before.holds(handle),
            self.slots.len() == before.slots.len(),
            forall|i: int|
                0 <= i < self.slots.len() && i != handle.slot ==> self.slots[i] == before.slots[i],
            self.slots[handle.slot as int].generation == handle.generation,
            self.slots[handle.slot as int].pool is Some,
            self.slots[handle.slot as int].pool->0@ == before.slots[handle.slot as int].pool->0@.step(
                event,
            ),
        ensures
            self@ == before@.pool_step(handle, event),
    {
        assert(self@.pools =~= before@.pool_step(handle, event).pools);
        assert(self@.issued =~= before@.issued);
    }

    /// What every registry satisfies between two calls.
    pub open spec fn wf(&self) -> bool {
        self@.wf()
    }

    /// A registry without pools.
    pub fn new() -> (registry: Registry<T>)
        ensures
            registry.wf(),
            registry@ == RegistryView::<T>::empty(),
    {
        let registry = Registry { slots: Vec::new() };
        assert(registry@.pools =~= Map::<WeakPool, PoolView<T>>::empty());
        assert(registry@.issued =~= Set::<WeakPool>::empty());
        registry
    }

    /// Creates a pool of the given capacity and returns its handle, which
    /// no pool had before.
    pub fn add_pool(&mut self, capacity: usize) -> (handle: WeakPool)
        requires
            old(self).wf(),
            capacity > 0,
        ensures
            final(self).wf(),
            !old(self)@.issued.contains(handle),
            final(self)@ == old(self)@.step(RegistryEvent::Open(handle, capacity as nat)),
    {
        let pool = Pool::new(capacity);
        let mut i: usize = 0;
        while i < self.slots.len()
            invariant
                i <= self.slots.len(),
                *self == *old(self),
                self.wf(),
                pool.wf(),
                pool@ == PoolView::<T>::new(capacity as nat),
            decreases self.slots.len() - i,
        {
            if self.slots[i].pool.is_none() && self.slots[i].generation < u64::MAX {
                let generation: u64 = self.slots[i].generation + 1;
                let handle = WeakPool { slot: i, generation };
                self.slots[i] = Slot { generation, pool: Some(pool) };
                assert(self@.pools =~= old(self)@.opened(handle, capacity as nat).pools);
                assert(self@.issued =~= old(self)@.opened(handle, capacity as nat).issued);
                return handle;
            }
            i = i + 1;
        }
        let handle = WeakPool { slot: self.slots.len(), generation: 0 };
        self.slots.push(Slot { generation: 0, pool: Some(pool) });
        assert(self@.pools =~= old(self)@.opened(handle, capacity as nat).pools);
        assert(self@.issued =~= old(self)@.opened(handle, capacity as nat).issued);
        handle
    }

    /// Drops the pool behind `handle` and returns it, with the resources
    /// that were idle in it. Its handle stays dead for ever; loans that are
    /// still out find no pool when they end. A handle whose pool is gone
    /// already changes nothing.
    pub fn remove_pool(&mut self, handle: WeakPool) -> (removed: Option<Pool<T>>)
        requires
            old(self).wf(),
        ensures
            final(self).wf(),
            final(self)@ == old(self)@.step(RegistryEvent::Drop(handle)),
            old(self)@.alive(handle) ==> removed is Some && removed->0@ == old(self)@.pools[handle],
            !old(self)@.alive(handle) ==> removed is None,
    {
        if !self.is_alive(handle) {
            assert(self@.pools =~= old(self)@.dropped(handle).pools);
            return None;
        }
        let removed = self.slots[handle.slot].pool.take();
        assert(self@.pools =~= old(self)@.dropped(handle).pools);
        assert(self@.issued =~= old(self)@.issued);
        removed
    }

    /// Whether the pool behind `handle` is alive.
    pub fn is_alive(&self, handle: WeakPool) -> (alive: bool)
        ensures
            alive == self@.alive(handle),
    {
        handle.slot < self.slots.len() && self.slots[handle.slot].generation == handle.generation
            && self.slots[handle.slot].pool.is_some()
    }

    /// The pool behind `handle`, if it is alive.
    pub fn upgrade(&self, handle: WeakPool) -> (pool: Option<&Pool<T>>)
        ensures
            self@.alive(handle) ==> pool is Some && pool->0@ == self@.pools[handle],
            !self@.alive(handle) ==> pool is None,
    {
        if !self.is_alive(handle) {
            return None;
        }
        self.slots[handle.slot].pool.as_ref()
    }

    /// Asks the pool behind `handle` for a permit. A caller that gets one
    /// is told what to do with it: validate the resource that was idle
    /// last, or construct a new one. A caller that is refused holds
    /// nothing, and the registry is as it was.
    pub fn reserve(&mut self, handle: WeakPool) -> (r: Result<Admission<T>, Refusal>)
        requires
            old(self).wf(),
        ensures
            final(self).wf(),
            final(self)@ == old(self)@.pool_step(handle, PoolEvent::Reserve),
            match old(self)@.reserved(handle) {
                Ok(Some(candidate)) => r matches Ok(Admission::Recycle(permit, inner)) && permit@
                    == handle && inner == candidate,
                Ok(None) => r matches Ok(Admission::Create(permit)) && permit@ == handle,
                Err(refusal) => r == Err::<Admission<T>, Refusal>(refusal) && final(self)@ == old(
                    self,
                )@,
            },
    {
        if !self.is_alive(handle) {
            return Err(Refusal::Closed);
        }
        let ghost before = *self;
        let granted = match &mut self.slots[handle.slot].pool {
            Some(pool) => pool.reserve(),
            None => Err(Refusal::Closed),
        };
        proof {
            self.lemma_pool_stepped(&before, handle, PoolEvent::Reserve);
            if granted is Err {
                assert(self@.pools =~= before@.pools);
            }
        }
        match granted {
            Ok(Some(inner)) => Ok(Admission::Recycle(Permit::new(handle), inner)),
            Ok(None) => Ok(Admission::Create(Permit::new(handle))),
            Err(refusal) => Err(refusal),
        }
    }

    /// Gives a permit back that no resource comes with: the caller gave the
    /// acquisition up, or was cancelled while it validated or constructed.
    pub fn cancel(&mut self, permit: Permit)
        requires
            old(self).wf(),
        ensures
            final(self).wf(),
            final(self)@ == old(self)@.pool_step(permit@, PoolEvent::Release),
    {
        self.release_permit(permit.into_pool());
    }

    /// Gives up an acquisition whose validation or construction took longer
    /// than its caller allows: the permit goes back, and the caller is told
    /// `Timeout`.
    pub fn timed_out<E>(&mut self, permit: Permit) -> (error: PoolError<E>)
        requires
            old(self).wf(),
        ensures
            final(self).wf(),
            final(self)@ == old(self)@.pool_step(permit@, PoolEvent::Release),
            error == PoolError::<E>::Timeout,
    {
        self.release_permit(permit.into_pool());
        PoolError::Timeout
    }

    /// Reports how a construction ended. A resource that was constructed
    /// gets the pool's next identity and fresh metrics, and becomes a loan
    /// under the caller's permit. Otherwise the permit goes back to the
    /// pool: the backend's error is passed on, and a resource for which
    /// the pool has no identity left, or whose pool is gone, is destroyed.
    pub fn created<E>(&mut self, permit: Permit, outcome: Result<T, E>, now: u64) -> (r: Result<
        Object<T>,
        PoolError<E>,
    >)
        requires
            old(self).wf(),
        ensures
            final(self).wf(),
            (final(self)@, acquired(r)) == old(self)@.created(permit@, outcome, now),
    {
        let handle = permit.into_pool();
        match outcome {
            Ok(obj) => {
                if !self.is_alive(handle) {
                    return Err(PoolError::Closed);
                }
                let ghost before = *self;
                let enrolled = match &mut self.slots[handle.slot].pool {
                    Some(pool) => {
                        match pool.enroll(obj, now) {
                            Ok(inner) => Some(inner),
                            Err(_) => {
                                pool.release_permit();
                                None
                            },
                        }
                    },
                    None => None,
                };
                proof {
                    if before@.has_id(handle) {
                        self.lemma_pool_stepped(&before, handle, PoolEvent::Enroll);
                    } else {
                        self.lemma_pool_stepped(&before, handle, PoolEvent::Release);
                    }
                }
                match enrolled {
                    Some(inner) => Ok(Object::new(inner, handle)),
                    None => Err(PoolError::Closed),
                }
            },
            Err(error) => {
                self.release_permit(handle);
                Err(PoolError::Backend(error))
            },
        }
    }

    /// Shuts the pool behind `handle` down: it grants no permit and keeps
    /// no resource any more. The resources that were idle are handed out
    /// to be destroyed. Loans that are out stay valid until they end.
    pub fn close(&mut self, handle: WeakPool) -> (drained: Vec<ObjectInner<T>>)
        requires
            old(self).wf(),
        ensures
            final(self).wf(),
            final(self)@ == old(self)@.pool_step(handle, PoolEvent::Close),
            drained@ == if old(self)@.alive(handle) {
                old(self)@.pools[handle].idle
            } else {
                Seq::empty()
            },
    {
        if !self.is_alive(handle) {
            return Vec::new();
        }
        let ghost before = *self;
        let drained = match &mut self.slots[handle.slot].pool {
            Some(pool) => pool.close(),
            None => Vec::new(),
        };
        proof {
            self.lemma_pool_stepped(&before, handle, PoolEvent::Close);
        }
        drained
    }

    /// Takes the resource of a loan back into the pool behind `handle`,
    /// without validating it. Says whether the resource is idle again or
    /// was destroyed.
    pub(crate) fn return_object(&mut self, handle: WeakPool, inner: ObjectInner<T>) -> (fate:
        Released)
        requires
            old(self).wf(),
        ensures
            final(self).wf(),
            final(self)@ == old(self)@.pool_step(handle, PoolEvent::Return(inner)),
            fate == if old(self)@.keeps(handle, inner) {
                Released::Returned
            } else {
                Released::Destroyed
            },
    {
        if !self.is_alive(handle) {
            return Released::Destroyed;
        }
        let ghost before = *self;
        let rejected = match &mut self.slots[handle.slot].pool {
            Some(pool) => pool.return_object(inner),
            None => Some(inner),
        };
        proof {
            self.lemma_pool_stepped(&before, handle, PoolEvent::Return(inner));
        }
        match rejected {
            Some(_) => Released::Destroyed,
            None => Released::Returned,
        }
    }

    /// Frees one permit of the pool behind `handle` whose resource does
    /// not come back.
    pub(crate) fn release_permit(&mut self, handle: WeakPool)
        requires
            old(self).wf(),
        ensures
            final(self).wf(),
            final(self)@ == old(self)@.pool_step(handle, PoolEvent::Release),
    {
        if !self.is_alive(handle) {
            return;
        }
        let ghost before = *self;
        match &mut self.slots[handle.slot].pool {
            Some(pool) => pool.release_permit(),
            None => {},
        }
        proof {
            self.lemma_pool_stepped(&before, handle, PoolEvent::Release);
        }
    }
}

} // verus!
