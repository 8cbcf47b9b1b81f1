use vstd::prelude::*;

use sqlx::Error as DbError;

verus! {

/// The connection pool could not be established (network failure, bad
/// credentials, missing schema). Fatal at startup.
#[derive(Debug)]
pub struct ConnectionError {
    /// What the database driver reported
    pub source: DbError,
}

impl ConnectionError {
    /// Wraps the driver's report of a failed connection.
    pub fn new(source: DbError) -> (r: ConnectionError)
        ensures
            r.source == source,
    {
        ConnectionError { source }
    }
}

} // verus!
