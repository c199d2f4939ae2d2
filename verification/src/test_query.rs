//! The liveness check of a connection.
//!
//! A connection is probed with a query that carries a number of its own,
//! `SELECT ?` with the count of probes so far, and is alive only if it
//! echoes that very number. A connection that is open but answers from a
//! cache, or answers garbage, fails where a bare round trip would pass.

use vstd::prelude::*;
use crate::errors::ConnectionError;
use crate::managed::{RecycleError, RecycleResult};

verus! {

/// What is reported when the test query returned no row.
pub open spec fn no_rows_message() -> Seq<char> {
    "No rows returned from database for test query"@
}

/// What is reported when the test query echoed another number.
pub open spec fn unexpected_value_message() -> Seq<char> {
    "Unexpected value returned for test query"@
}

/// What a test query says about its connection. `expected` is the number
/// that was sent. `fetched` is what came back: the number in the first
/// column of the first row, no row at all, or the error with which libsql
/// failed on the way.
pub open spec fn test_query_verdict(
    expected: u64,
    fetched: Result<Option<u64>, libsql::Error>,
    verdict: Result<(), ConnectionError>,
) -> bool {
    match fetched {
        Ok(Some(value)) => if value == expected {
            verdict is Ok
        } else {
            verdict matches Err(ConnectionError::TestQueryFailed(message)) && message@
                == unexpected_value_message()
        },
        Ok(None) => verdict matches Err(ConnectionError::TestQueryFailed(message)) && message@
            == no_rows_message(),
        Err(error) => verdict matches Err(ConnectionError::Libsql(cause)) && cause == error,
    }
}

/// Judges the answer to a test query: the connection is good exactly when
/// the number sent came back.
pub fn check_test_query(expected: u64, fetched: Result<Option<u64>, libsql::Error>) -> (verdict:
    Result<(), ConnectionError>)
    ensures
        test_query_verdict(expected, fetched, verdict),
{
    match fetched {
        Ok(Some(value)) => {
            if value == expected {
                Ok(())
            } else {
                Err(ConnectionError::TestQueryFailed("Unexpected value returned for test query"))
            }
        },
        Ok(None) => Err(
            ConnectionError::TestQueryFailed("No rows returned from database for test query"),
        ),
        Err(error) => Err(ConnectionError::Libsql(error)),
    }
}

/// Judges the answer to a test query on a connection that is about to be
/// used again: the connection is kept exactly when the number sent came
/// back. Whatever else happened, a wrong answer or an error of libsql, is
/// the backend's reason to discard the connection.
pub fn recycle_test_query(expected: u64, fetched: Result<Option<u64>, libsql::Error>) -> (verdict:
    RecycleResult<ConnectionError>)
    ensures
        verdict is Ok <==> fetched == Ok::<Option<u64>, libsql::Error>(Some(expected)),
        verdict matches Err(reason) ==> reason matches RecycleError::Backend(error)
            && test_query_verdict(expected, fetched, Err(error)),
{
    match check_test_query(expected, fetched) {
        Ok(()) => Ok(()),
        Err(error) => Err(RecycleError::Backend(error)),
    }
}

} // verus!
