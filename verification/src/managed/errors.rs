//! The ways in which an acquisition or a validation ends badly.

use vstd::prelude::*;

verus! {

/// Why no loan was handed out.
#[derive(Debug)]
pub enum PoolError<E> {
    /// No permit became free in time, and the pool is as it was; or the
    /// backend took longer than the caller allows, and the permit went
    /// back.
    Timeout,
    /// The backend failed to construct a resource.
    Backend(E),
    /// The pool is gone or shut down, or it has no identity left for a new
    /// resource.
    Closed,
}

/// Why an idle resource must not be used again. The caller of an
/// acquisition never sees it: a replacement is constructed instead.
#[derive(Debug)]
pub enum RecycleError<E> {
    /// The resource is unfit, for the reason given.
    Message(String),
    /// The backend failed while the resource was examined.
    Backend(E),
}

/// What a validation returns.
pub type RecycleResult<E> = Result<(), RecycleError<E>>;

} // verus!
