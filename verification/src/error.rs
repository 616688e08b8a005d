//! What can go wrong while the model is built or kept in step.

use vstd::prelude::*;
use crate::query::QueryFailure;

verus! {

/// Why the model could not be built or kept in step.
#[derive(Debug, Clone, Copy, PartialEq, Eq, Structural)]
pub enum SyncError {
    /// A query to the window manager failed.
    QueryFailure(QueryFailure),
    /// A monitor or desktop that was expected is not known.
    LookupNotFound,
    /// The event subscription broke.
    StreamFault,
}

} // verus!
