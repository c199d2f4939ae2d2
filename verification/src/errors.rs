//! Why a connection is refused.

use vstd::prelude::*;

verus! {

/// `libsql::Error`: an error of libsql. Nothing is claimed of it; the
/// library passes such errors on and never looks into them.
#[verifier::external_type_specification]
#[verifier::external_body]
pub struct ExLibsqlError(libsql::Error);

/// Why a connection could not be made or must not be used again.
#[derive(Debug)]
pub enum ConnectionError {
    /// libsql reported the error.
    Libsql(libsql::Error),
    /// The test query ran, but the database answered it wrongly.
    TestQueryFailed(&'static str),
}

} // verus!
