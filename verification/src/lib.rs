//! A bounded pool of expensive resources, with admission control, lazy
//! validation on reuse and loans that find their way home on their own;
//! and what a pool of libsql connections needs beside it.
//!
//! [`managed`] holds the pool itself: the rules by which permits are
//! granted and resources reused, the registry through which a loan finds
//! its pool again, and the laws that the rules obey. [`config`] describes
//! the database to connect to, [`test_query`] judges whether a connection
//! is alive, and [`errors`] names what can go wrong with one.

pub mod config;
pub mod errors;
pub mod managed;
pub mod test_query;

pub use errors::ConnectionError;
pub use test_query::{check_test_query, recycle_test_query};
