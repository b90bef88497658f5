//! How a request to a database can fail.

use vstd::prelude::*;

verus! {

/// Why a request to a database failed.
#[derive(Clone, Copy, Debug, PartialEq, Eq, Structural)]
pub enum AppDatabaseError {
    /// The pool gave no connection.
    FailedToGetConnectionFromPool,
    /// The connection broke while it was used.
    InteractionFailed,
    /// The database refused the query or found nothing.
    QueryFailed,
    /// Anything else.
    Other,
}

} // verus!
