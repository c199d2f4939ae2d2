//! What a caller holds: a permit while an acquisition is under way, and a
//! loan once it has a resource.

use vstd::prelude::*;
use super::errors::RecycleResult;
use super::metrics::{Metrics, ObjectInner};
use super::pool::{Pool, PoolEvent};
use super::registry::{Registry, RegistryView, WeakPool};

verus! {

/// One permit of a pool, held by an acquisition that has no loan yet. Its
/// view is the handle of the pool that granted it.
#[derive(Debug)]
#[must_use]
pub struct Permit {
    pool: WeakPool,
}

impl View for Permit {
    type V = WeakPool;

    closed spec fn view(&self) -> WeakPool {
        self.pool
    }
}

/// What a caller with a new permit has to do next.
#[derive(Debug)]
pub enum Admission<T> {
    /// Validate this resource, which was idle, and report with
    /// [`Permit::recycled`].
    Recycle(Permit, ObjectInner<T>),
    /// Construct a resource and report with [`Registry::created`].
    Create(Permit),
}

/// What became of a loan when it was released.
#[derive(Clone, Copy, Debug, PartialEq, Eq, Structural)]
pub enum Released {
    /// The resource is idle in its pool again.
    Returned,
    /// The resource was destroyed: its pool is gone or does not keep it.
    Destroyed,
    /// The loan had been released before, so nothing happened.
    Nothing,
}

/// A loan: one resource, its metrics, and the handle of the pool that it
/// came from. It holds one permit of that pool until it is released or its
/// resource is taken out of it.
#[derive(Debug)]
#[must_use]
pub struct Object<T> {
    inner: Option<ObjectInner<T>>,
    pool: WeakPool,
}

/// A loan as a mathematical value.
pub struct ObjectView<T> {
    /// The resource and its metrics, until the loan is released.
    pub inner: Option<ObjectInner<T>>,
    /// The handle of the pool that the loan came from.
    pub pool: WeakPool,
}

impl<T> View for Object<T> {
    type V = ObjectView<T>;

    closed spec fn view(&self) -> ObjectView<T> {
        ObjectView { inner: self.inner, pool: self.pool }
    }
}

impl<T> ObjectView<T> {
    /// The loan of a resource that was constructed just now.
    pub open spec fn fresh(pool: WeakPool, obj: T, id: nat, now: u64) -> ObjectView<T> {
        ObjectView {
            inner: Some(ObjectInner { obj, metrics: Metrics::fresh(id as usize, now) }),
            pool,
        }
    }

    /// What the validation of an idle resource comes to. A resource that
    /// passed becomes a loan again, with one more recycling on its record.
    /// A resource that failed becomes nothing: only the handle of the
    /// permit's pool is left, for the construction of a replacement.
    pub open spec fn recycled<E>(
        pool: WeakPool,
        inner: ObjectInner<T>,
        outcome: RecycleResult<E>,
    ) -> Result<ObjectView<T>, WeakPool> {
        match outcome {
            Ok(_) => Ok(
                ObjectView {
                    inner: Some(ObjectInner { obj: inner.obj, metrics: inner.metrics.recycled() }),
                    pool,
                },
            ),
            Err(_) => Err(pool),
        }
    }

    /// The loan after its release: it holds nothing, and remembers where it
    /// came from.
    pub open spec fn spent(self) -> ObjectView<T> {
        ObjectView { inner: None, pool: self.pool }
    }

    /// What a release of this loan does to the registry.
    pub open spec fn release(self, registry: RegistryView<T>) -> RegistryView<T> {
        match self.inner {
            Some(inner) => registry.pool_step(self.pool, PoolEvent::Return(inner)),
            None => registry,
        }
    }

    /// What a release of this loan reports.
    pub open spec fn fate(self, registry: RegistryView<T>) -> Released {
        match self.inner {
            Some(inner) => if registry.keeps(self.pool, inner) {
                Released::Returned
            } else {
                Released::Destroyed
            },
            None => Released::Nothing,
        }
    }
}

impl Permit {
    pub(crate) fn new(pool: WeakPool) -> (permit: Permit)
        ensures
            permit@ == pool,
    {
        Permit { pool }
    }

    pub(crate) fn into_pool(self) -> (pool: WeakPool)
        ensures
            pool == self@,
    {
        self.pool
    }

    /// The handle of the pool that granted the permit.
    pub fn pool(&self) -> (pool: WeakPool)
        ensures
            pool == self@,
    {
        self.pool
    }

    /// Reports how the validation of an idle resource ended. A resource
    /// that passed becomes a loan, with one more recycling on its record. A
    /// resource that failed is destroyed here and never reaches a caller;
    /// the permit comes back for the construction of a replacement, and
    /// the reason of the failure is dropped.
    pub fn recycled<T, E>(self, inner: ObjectInner<T>, outcome: RecycleResult<E>) -> (r: Result<
        Object<T>,
        Permit,
    >)
        ensures
            match r {
                Ok(object) => ObjectView::recycled(self@, inner, outcome) == Ok::<
                    ObjectView<T>,
                    WeakPool,
                >(object@),
                Err(permit) => ObjectView::recycled(self@, inner, outcome) == Err::<
                    ObjectView<T>,
                    WeakPool,
                >(permit@),
            },
    {
        match outcome {
            Ok(()) => Ok(
                Object {
                    inner: Some(ObjectInner { obj: inner.obj, metrics: inner.metrics.recycled() }),
                    pool: self.pool,
                },
            ),
            Err(_) => Err(self),
        }
    }
}

impl<T> Object<T> {
    pub(crate) fn new(inner: ObjectInner<T>, pool: WeakPool) -> (object: Object<T>)
        ensures
            object@ == (ObjectView { inner: Some(inner), pool }),
    {
        Object { inner: Some(inner), pool }
    }

    /// Takes the resource out of its pool for good and hands it to the
    /// caller. The loan's permit is free at once, so that another resource
    /// can take its place. Where the pool is gone, no pool changes.
    pub fn take(this: Object<T>, registry: &mut Registry<T>) -> (obj: T)
        requires
            old(registry).wf(),
            this@.inner is Some,
        ensures
            final(registry).wf(),
            obj == this@.inner->0.obj,
            final(registry)@ == old(registry)@.pool_step(this@.pool, PoolEvent::Release),
    {
        let Object { inner, pool } = this;
        registry.release_permit(pool);
        inner.unwrap().obj
    }

    /// Ends the loan. The resource goes back to the idle collection of the
    /// pool that it came from, without validation, and keeps the loan's
    /// permit there. Where that pool is gone, the resource is destroyed and
    /// no pool changes. A loan that was released before holds nothing, and
    /// releasing it again does nothing.
    pub fn release(&mut self, registry: &mut Registry<T>) -> (fate: Released)
        requires
            old(registry).wf(),
        ensures
            final(registry).wf(),
            final(self)@ == old(self)@.spent(),
            final(registry)@ == old(self)@.release(old(registry)@),
            fate == old(self)@.fate(old(registry)@),
    {
        match self.inner.take() {
            Some(inner) => registry.return_object(self.pool, inner),
            None => Released::Nothing,
        }
    }

    /// The identity of the resource. Identities grow with every resource
    /// that a pool constructs; gaps may occur.
    pub fn id(this: &Object<T>) -> (id: usize)
        requires
            this@.inner is Some,
        ensures
            id == this@.inner->0.metrics.id,
    {
        this.inner.as_ref().unwrap().metrics.id
    }

    /// The pool's record of the resource.
    pub fn metrics(this: &Object<T>) -> (metrics: &Metrics)
        requires
            this@.inner is Some,
        ensures
            *metrics == this@.inner->0.metrics,
    {
        &this.inner.as_ref().unwrap().metrics
    }

    /// The pool that the loan came from, if it is still alive.
    pub fn pool<'a>(this: &Object<T>, registry: &'a Registry<T>) -> (pool: Option<&'a Pool<T>>)
        ensures
            registry@.alive(this@.pool) ==> pool is Some && pool->0@
                == registry@.pools[this@.pool],
            !registry@.alive(this@.pool) ==> pool is None,
    {
        registry.upgrade(this.pool)
    }

    /// The handle of the pool that the loan came from.
    pub fn weak_pool(this: &Object<T>) -> (pool: WeakPool)
        ensures
            pool == this@.pool,
    {
        this.pool
    }

    /// The resource, as long as the loan holds it.
    pub fn get(this: &Object<T>) -> (obj: Option<&T>)
        ensures
            match this@.inner {
                Some(inner) => obj == Some(&inner.obj),
                None => obj is None,
            },
    {
        match &this.inner {
            Some(inner) => Some(&inner.obj),
            None => None,
        }
    }

    /// The resource for a change in place, as long as the loan holds it.
    /// Whatever the caller makes of the resource, the loan holds that; its
    /// metrics and its pool stay.
    pub fn get_mut(this: &mut Object<T>) -> (obj: Option<&mut T>)
        ensures
            match old(this)@.inner {
                Some(inner) => obj is Some && *obj->0 == inner.obj && final(this)@ == (ObjectView {
                    inner: Some(ObjectInner { obj: *final(obj->0), metrics: inner.metrics }),
                    pool: old(this)@.pool,
                }),
                None => obj is None && final(this)@ == old(this)@,
            },
    {
        match &mut this.inner {
            Some(inner) => Some(&mut inner.obj),
            None => None,
        }
    }
}

} // verus!
