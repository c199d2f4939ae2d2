//! The generic pool: resources of any type, handed out under a capacity
//! bound and taken back when their holder is done with them.

pub mod errors;
pub mod laws;
pub mod manager;
pub mod metrics;
pub mod object;
pub mod pool;
pub mod registry;

pub use errors::{PoolError, RecycleError, RecycleResult};
pub use manager::Manager;
pub use metrics::{Metrics, ObjectInner};
pub use object::{Admission, Object, ObjectView, Permit, Released};
pub use pool::{Pool, PoolEvent, PoolView, Refusal};
pub use registry::{Registry, RegistryEvent, RegistryView, WeakPool};
