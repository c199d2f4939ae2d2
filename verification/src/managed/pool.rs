//! The state of one pool and the rules by which it changes.
//!
//! Every resource alive is backed by one permit, and a pool has `capacity`
//! permits in all. A permit is held by a loan or by an acquisition under
//! way (`outstanding` counts those), or it stays with a resource in the
//! idle collection, or it is free. A caller that is granted a permit takes
//! the one of the resource that was idle last, together with the resource,
//! or a free one if nothing is idle. So a permit can be granted exactly
//! while `outstanding < capacity`, and every rule keeps
//! `idle + outstanding <= capacity`.

use vstd::prelude::*;
use super::metrics::{Metrics, ObjectInner};

verus! {

/// Why a pool gave a caller no permit.
#[derive(Clone, Copy, Debug, PartialEq, Eq, Structural)]
pub enum Refusal {
    /// The pool has been shut down.
    Closed,
    /// Every permit is out: the caller has to wait for one.
    Busy,
}

/// One step in the life of a pool.
pub enum PoolEvent<T> {
    /// A caller asks for a permit.
    Reserve,
    /// A resource was constructed and asks for its identity.
    Enroll,
    /// A permit comes back without a resource: a construction failed or
    /// was given up, or a resource was detached.
    Release,
    /// A loan ends and its resource comes back.
    Return(ObjectInner<T>),
    /// The pool is shut down.
    Close,
}

/// The pool as a mathematical value.
pub struct PoolView<T> {
    /// The largest number of resources that may be alive at once.
    pub capacity: nat,
    /// The resources that wait for reuse; the last one is offered next.
    pub idle: Seq<ObjectInner<T>>,
    /// The permits held by loans and by acquisitions under way.
    pub outstanding: nat,
    /// The identity that the next constructed resource gets.
    pub next_id: nat,
    /// Whether the pool has been shut down.
    pub closed: bool,
}

impl<T> PoolView<T> {
    /// A pool that has handed out nothing yet.
    pub open spec fn new(capacity: nat) -> PoolView<T> {
        PoolView { capacity, idle: Seq::empty(), outstanding: 0, next_id: 0, closed: false }
    }

    /// The resources alive: those that wait and those that are out.
    pub open spec fn live(self) -> nat {
        self.idle.len() + self.outstanding
    }

    /// The permits that back no resource and are free to be granted.
    pub open spec fn free(self) -> nat {
        if self.live() <= self.capacity {
            (self.capacity - self.live()) as nat
        } else {
            0
        }
    }

    /// The capacity bound; that a pool shut down keeps nothing; that every
    /// idle resource has an identity that the pool gave out; and that the
    /// counters fit the machine.
    pub open spec fn wf(self) -> bool {
        &&& self.live() <= self.capacity
        &&& self.closed ==> self.idle.len() == 0
        &&& forall|i: int| 0 <= i < self.idle.len() ==> (#[trigger] self.idle[i]).metrics.id
            < self.next_id
        &&& self.capacity <= usize::MAX
        &&& self.next_id <= usize::MAX
    }

    /// Whether a caller gets a permit now.
    pub open spec fn grants(self) -> bool {
        !self.closed && self.outstanding < self.capacity
    }

    /// The answer to a caller that gets no permit.
    pub open spec fn refusal(self) -> Refusal {
        if self.closed {
            Refusal::Closed
        } else {
            Refusal::Busy
        }
    }

    /// The resource that a caller with a new permit is offered for reuse:
    /// the one that came back last, if any is idle.
    pub open spec fn candidate(self) -> Option<ObjectInner<T>> {
        if self.idle.len() > 0 {
            Some(self.idle.last())
        } else {
            None
        }
    }

    /// The pool after a permit was granted: one more permit is out, and the
    /// candidate has left the idle collection.
    pub open spec fn granted(self) -> PoolView<T> {
        PoolView {
            idle: if self.idle.len() > 0 {
                self.idle.drop_last()
            } else {
                self.idle
            },
            outstanding: self.outstanding + 1,
            ..self
        }
    }

    /// Whether an identity is left for one more resource.
    pub open spec fn has_id(self) -> bool {
        self.next_id < usize::MAX
    }

    /// The pool after a resource was constructed and given its identity.
    pub open spec fn enrolled(self) -> PoolView<T> {
        PoolView { next_id: self.next_id + 1, ..self }
    }

    /// The pool after a permit came back without a resource.
    pub open spec fn released(self) -> PoolView<T> {
        PoolView {
            outstanding: if self.outstanding > 0 {
                (self.outstanding - 1) as nat
            } else {
                0
            },
            ..self
        }
    }

    /// Whether a resource that comes back is kept for reuse: the pool is
    /// open, a permit is out that the resource can have come under, and the
    /// resource has an identity that the pool gave out.
    pub open spec fn keeps(self, inner: ObjectInner<T>) -> bool {
        !self.closed && self.outstanding > 0 && inner.metrics.id < self.next_id
    }

    /// The pool after a loan ended and its resource came back. The permit
    /// of the loan stays with the resource if the resource is kept, and is
    /// free otherwise.
    pub open spec fn returned(self, inner: ObjectInner<T>) -> PoolView<T> {
        PoolView {
            idle: if self.keeps(inner) {
                self.idle.push(inner)
            } else {
                self.idle
            },
            ..self.released()
        }
    }

    /// The pool after it was shut down.
    pub open spec fn shut(self) -> PoolView<T> {
        PoolView { idle: Seq::empty(), closed: true, ..self }
    }

    /// The pool after one step.
    pub open spec fn step(self, event: PoolEvent<T>) -> PoolView<T> {
        match event {
            PoolEvent::Reserve => if self.grants() {
                self.granted()
            } else {
                self
            },
            PoolEvent::Enroll => if self.has_id() {
                self.enrolled()
            } else {
                self
            },
            PoolEvent::Release => self.released(),
            PoolEvent::Return(inner) => self.returned(inner),
            PoolEvent::Close => self.shut(),
        }
    }
}

/// A bounded collection of resources: an idle stack, the count of permits
/// that are out, and the counter that names new resources.
pub struct Pool<T> {
    capacity: usize,
    idle: Vec<ObjectInner<T>>,
    outstanding: usize,
    next_id: usize,
    closed: bool,
}

impl<T> View for Pool<T> {
    type V = PoolView<T>;

    closed spec fn view(&self) -> PoolView<T> {
        PoolView {
            capacity: self.capacity as nat,
            idle: self.idle@,
            outstanding: self.outstanding as nat,
            next_id: self.next_id as nat,
            closed: self.closed,
        }
    }
}

impl<T> Pool<T> {
    /// What every pool satisfies between two calls.
    pub open spec fn wf(&self) -> bool {
        self@.wf()
    }

    /// A pool that lets up to `capacity` resources live at once.
    pub fn new(capacity: usize) -> (pool: Pool<T>)
        requires
            capacity > 0,
        ensures
            pool.wf(),
            pool@ == PoolView::<T>::new(capacity as nat),
    {
        Pool { capacity, idle: Vec::new(), outstanding: 0, next_id: 0, closed: false }
    }

    /// Asks for a permit. A caller that gets one holds it from then on and
    /// is told what to do with it: validate the resource that was idle last
    /// (`Some`), or construct a new one (`None`). A caller that is refused
    /// holds nothing, and the pool is as it was.
    pub fn reserve(&mut self) -> (r: Result<Option<ObjectInner<T>>, Refusal>)
        requires
            old(self).wf(),
        ensures
            final(self).wf(),
            final(self)@ == old(self)@.step(PoolEvent::Reserve),
            r == if old(self)@.grants() {
                Ok::<Option<ObjectInner<T>>, Refusal>(old(self)@.candidate())
            } else {
                Err::<Option<ObjectInner<T>>, Refusal>(old(self)@.refusal())
            },
            r is Err ==> final(self)@ == old(self)@,
    {
        if self.closed {
            return Err(Refusal::Closed);
        }
        if self.outstanding >= self.capacity {
            return Err(Refusal::Busy);
        }
        let candidate = self.idle.pop();
        self.outstanding = self.outstanding + 1;
        Ok(candidate)
    }

    /// Takes a newly constructed resource under management: gives it the
    /// next identity and fresh metrics. The caller keeps the permit under
    /// which it constructed the resource. Where no identity is left, the
    /// resource comes back as it was and the pool is unchanged.
    pub fn enroll(&mut self, obj: T, now: u64) -> (r: Result<ObjectInner<T>, T>)
        requires
            old(self).wf(),
        ensures
            final(self).wf(),
            final(self)@ == old(self)@.step(PoolEvent::Enroll),
            r == if old(self)@.has_id() {
                Ok::<ObjectInner<T>, T>(
                    ObjectInner { obj, metrics: Metrics::fresh(old(self)@.next_id as usize, now) },
                )
            } else {
                Err::<ObjectInner<T>, T>(obj)
            },
    {
        if self.next_id == usize::MAX {
            return Err(obj);
        }
        let id: usize = self.next_id;
        self.next_id = id + 1;
        Ok(ObjectInner { obj, metrics: Metrics { id, created_at: now, recycle_count: 0 } })
    }

    /// Gives a permit back that no resource comes with: a construction
    /// failed or was given up, or a resource was detached for good.
    pub fn release_permit(&mut self)
        requires
            old(self).wf(),
        ensures
            final(self).wf(),
            final(self)@ == old(self)@.step(PoolEvent::Release),
    {
        if self.outstanding > 0 {
            self.outstanding = self.outstanding - 1;
        }
    }

    /// Takes a resource back at the end of its loan, without validating it.
    /// A resource that the pool keeps is idle from now on, to be offered
    /// first, and `None` is returned. A resource that the pool does not
    /// keep comes back to be destroyed, and its permit is free.
    pub fn return_object(&mut self, inner: ObjectInner<T>) -> (rejected: Option<ObjectInner<T>>)
        requires
            old(self).wf(),
        ensures
            final(self).wf(),
            final(self)@ == old(self)@.step(PoolEvent::Return(inner)),
            rejected == if old(self)@.keeps(inner) {
                None
            } else {
                Some(inner)
            },
    {
        if self.closed || self.outstanding == 0 || inner.metrics.id >= self.next_id {
            self.release_permit();
            return Some(inner);
        }
        self.outstanding = self.outstanding - 1;
        self.idle.push(inner);
        None
    }

    /// Shuts the pool down: from now on it grants no permit and keeps no
    /// resource. The resources that were idle are handed out to be
    /// destroyed, in the order in which they came back.
    pub fn close(&mut self) -> (drained: Vec<ObjectInner<T>>)
        requires
            old(self).wf(),
        ensures
            final(self).wf(),
            final(self)@ == old(self)@.step(PoolEvent::Close),
            drained@ == old(self)@.idle,
    {
        let mut drained: Vec<ObjectInner<T>> = Vec::new();
        std::mem::swap(&mut drained, &mut self.idle);
        self.closed = true;
        drained
    }

    /// The largest number of resources that may be alive at once.
    pub fn capacity(&self) -> (capacity: usize)
        ensures
            capacity == self@.capacity,
    {
        self.capacity
    }

    /// The number of resources that wait for reuse.
    pub fn idle(&self) -> (idle: usize)
        ensures
            idle == self@.idle.len(),
    {
        self.idle.len()
    }

    /// The number of permits that back no resource.
    pub fn free(&self) -> (free: usize)
        ensures
            free == self@.free(),
    {
        let idle: usize = self.idle.len();
        if idle > self.capacity || self.outstanding > self.capacity - idle {
            0
        } else {
            self.capacity - idle - self.outstanding
        }
    }

    /// The number of permits held by loans and by acquisitions under way.
    pub fn outstanding(&self) -> (outstanding: usize)
        ensures
            outstanding == self@.outstanding,
    {
        self.outstanding
    }

    /// The identity that the next constructed resource gets.
    pub fn next_id(&self) -> (next_id: usize)
        ensures
            next_id == self@.next_id,
    {
        self.next_id
    }

    /// Whether the pool has been shut down.
    pub fn is_closed(&self) -> (closed: bool)
        ensures
            closed == self@.closed,
    {
        self.closed
    }
}

} // verus!
