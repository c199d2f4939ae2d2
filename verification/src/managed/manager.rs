//! The backend of a pool, and an acquisition from start to end.

use vstd::prelude::*;
use super::errors::{PoolError, RecycleError, RecycleResult};
use super::metrics::{Metrics, ObjectInner};
use super::object::{Admission, Object, ObjectView};
use super::pool::{PoolEvent, Refusal};
use super::registry::{Registry, RegistryView, WeakPool};

verus! {

/// What a pool needs from its backend: to construct a resource, and to say
/// whether an idle one is still fit for use.
///
/// The pool is correct whatever the backend answers, and nothing is asked
/// of its answers. A backend may say more about them by defining
/// `may_create` and `may_recycle`: what it says there is its own to prove,
/// and comes back in the contract of an acquisition. A backend that defines
/// neither says nothing.
pub trait Manager {
    /// The resources that the backend makes.
    type Type;

    /// The errors with which the backend fails.
    type Error;

    /// Whether the backend may give the answer `made` to a construction.
    open spec fn may_create(&self, made: Result<Self::Type, Self::Error>) -> bool {
        true
    }

    /// Whether the backend may give the verdict `checked` on the resource
    /// `before` with the record `metrics`, leaving the resource as `after`.
    open spec fn may_recycle(
        &self,
        before: Self::Type,
        metrics: Metrics,
        after: Self::Type,
        checked: RecycleResult<Self::Error>,
    ) -> bool {
        true
    }

    /// Constructs a new resource.
    fn create(&self) -> (made: Result<Self::Type, Self::Error>)
        ensures
            self.may_create(made),
    ;

    /// Examines a resource that is about to be used again, and may refresh
    /// it. An error means that the resource must not be used.
    fn recycle(&self, obj: &mut Self::Type, metrics: &Metrics) -> (checked: RecycleResult<
        Self::Error,
    >)
        ensures
            self.may_recycle(*old(obj), *metrics, *final(obj), checked),
    ;
}

impl<E> PoolError<E> {
    /// The error of a caller that was refused a permit and waits no longer.
    pub open spec fn spec_refused(refusal: Refusal) -> PoolError<E> {
        match refusal {
            Refusal::Closed => PoolError::Closed,
            Refusal::Busy => PoolError::Timeout,
        }
    }

    /// The error of a caller that was refused a permit and waits no longer:
    /// `Closed` if the pool is shut down or gone, `Timeout` if every permit
    /// is out.
    #[verifier::when_used_as_spec(spec_refused)]
    pub fn refused(refusal: Refusal) -> (error: PoolError<E>)
        ensures
            error == PoolError::<E>::spec_refused(refusal),
    {
        match refusal {
            Refusal::Closed => PoolError::Closed,
            Refusal::Busy => PoolError::Timeout,
        }
    }
}

/// What a caller got, with the loan as a mathematical value.
pub open spec fn acquired<T, E>(r: Result<Object<T>, PoolError<E>>) -> Result<
    ObjectView<T>,
    PoolError<E>,
> {
    match r {
        Ok(object) => Ok(object@),
        Err(error) => Err(error),
    }
}

/// Whether `after` can be what a validation left of `candidate`: the same
/// record around a resource that the backend may have refreshed.
pub open spec fn examined<T>(
    candidate: Option<ObjectInner<T>>,
    after: Option<ObjectInner<T>>,
) -> bool {
    match (candidate, after) {
        (Some(candidate), Some(after)) => after.metrics == candidate.metrics,
        (None, None) => true,
        _ => false,
    }
}

/// Whether `checked` and `made` can be the answers of the backend in an
/// acquisition that was offered `candidate` and found it to be `after` when
/// the validation was over. The verdict counts where there was a candidate,
/// and the construction where there was none or it failed.
pub open spec fn answered<M: Manager>(
    manager: &M,
    candidate: Option<ObjectInner<M::Type>>,
    after: Option<ObjectInner<M::Type>>,
    checked: RecycleResult<M::Error>,
    made: Result<M::Type, M::Error>,
) -> bool {
    &&& candidate is Some && after is Some ==> manager.may_recycle(
        candidate->0.obj,
        candidate->0.metrics,
        after->0.obj,
        checked,
    )
    &&& after is None || checked is Err ==> manager.may_create(made)
}

impl<T> RegistryView<T> {
    /// What an acquisition comes to once it holds a permit of the pool
    /// `permit`: the registry afterwards, and what the caller gets.
    ///
    /// `candidate` is the resource that was offered for reuse, as the
    /// validation left it, and `checked` is the verdict on it. A candidate
    /// that passed is the caller's loan. Otherwise, for want of a candidate
    /// or in place of one that failed, one resource is constructed, and
    /// `made` is the backend's answer to that.
    pub open spec fn settled<E>(
        self,
        permit: WeakPool,
        candidate: Option<ObjectInner<T>>,
        checked: RecycleResult<E>,
        made: Result<T, E>,
        now: u64,
    ) -> (RegistryView<T>, Result<ObjectView<T>, PoolError<E>>) {
        match candidate {
            Some(inner) => match ObjectView::recycled(permit, inner, checked) {
                Ok(loan) => (self, Ok(loan)),
                Err(permit) => self.created(permit, made, now),
            },
            None => self.created(permit, made, now),
        }
    }
}

impl<T> Registry<T> {
    /// Acquires a loan from the pool behind `handle` without waiting: a
    /// caller that finds every permit out gets `Timeout` at once, with
    /// nothing constructed and nothing changed.
    ///
    /// With a permit, the resource that was idle last is validated and, if
    /// it passes, handed out again under its identity. If it fails, or if
    /// none was idle, one resource is constructed under the same permit. A
    /// construction that fails is not tried again: the permit goes back and
    /// the caller gets the backend's error.
    ///
    /// The backend decides whether a resource passes and whether one can
    /// be constructed. Whatever it answers, the outcome is what
    /// [`RegistryView::settled`] makes of its answers.
    pub fn acquire<M: Manager<Type = T>>(&mut self, handle: WeakPool, manager: &M, now: u64) -> (r:
        Result<Object<T>, PoolError<M::Error>>)
        requires
            old(self).wf(),
        ensures
            final(self).wf(),
            match old(self)@.reserved(handle) {
                Err(refusal) => {
                    &&& final(self)@ == old(self)@
                    &&& r == Err::<Object<T>, PoolError<M::Error>>(PoolError::refused(refusal))
                },
                Ok(candidate) => exists|
                    after: Option<ObjectInner<T>>,
                    checked: RecycleResult<M::Error>,
                    made: Result<T, M::Error>,
                |
                    examined(candidate, after) && answered(manager, candidate, after, checked, made)
                        && (final(self)@, acquired(r)) == #[trigger] old(self)@.pool_step(
                        handle,
                        PoolEvent::Reserve,
                    ).settled(handle, after, checked, made, now),
            },
    {
        let ghost reserved = self@.pool_step(handle, PoolEvent::Reserve);
        match self.reserve(handle) {
            Err(refusal) => Err(PoolError::refused(refusal)),
            Ok(Admission::Recycle(permit, inner)) => {
                let mut inner = inner;
                let checked = manager.recycle(&mut inner.obj, &inner.metrics);
                let ghost after = Some(inner);
                match permit.recycled(inner, checked) {
                    Ok(object) => {
                        let r = Ok(object);
                        assert((self@, acquired(r)) == reserved.settled(
                            handle,
                            after,
                            checked,
                            Err::<T, M::Error>(arbitrary()),
                            now,
                        ));
                        r
                    },
                    Err(permit) => {
                        let made = manager.create();
                        let r = self.created(permit, made, now);
                        assert((self@, acquired(r)) == reserved.settled(
                            handle,
                            after,
                            checked,
                            made,
                            now,
                        ));
                        r
                    },
                }
            },
            Ok(Admission::Create(permit)) => {
                let made = manager.create();
                let r = self.created(permit, made, now);
                assert((self@, acquired(r)) == reserved.settled(
                    handle,
                    None,
                    Ok::<(), RecycleError<M::Error>>(()),
                    made,
                    now,
                ));
                r
            },
        }
    }
}

} // verus!
