//! Error taxonomy. The ranked store is the only collaborator whose
//! failures reach a caller: transient ones (connectivity, timeouts) are
//! retried at the next scheduled interaction and surface as a generic
//! unavailability, permanent ones (a malformed query) as a client error.
//! Cache failures are absorbed by design and have no type here.

use vstd::prelude::*;

verus! {

/// How a ranked-store failure is classified by the core.
#[derive(Clone, Copy, PartialEq, Eq, Structural, Debug)]
pub enum StoreError {
    /// Connectivity or timeout: the next tick or request retries.
    Transient,
    /// The query itself was unacceptable: retrying cannot help.
    Permanent,
}

/// What a read request's caller sees when the store fails.
#[derive(Clone, Copy, PartialEq, Eq, Structural, Debug)]
pub enum ServiceError {
    /// The generic failure of a read: try again later.
    TemporarilyUnavailable,
    /// The request itself was at fault.
    InvalidRequest,
}

/// How each store failure surfaces to the caller.
pub open spec fn spec_classify(e: StoreError) -> ServiceError {
    match e {
        StoreError::Transient => ServiceError::TemporarilyUnavailable,
        StoreError::Permanent => ServiceError::InvalidRequest,
    }
}

/// Maps a store failure to the error a read request reports.
pub fn classify_store_error(e: StoreError) -> (r: ServiceError)
    ensures
        r == spec_classify(e),
{
    match e {
        StoreError::Transient => ServiceError::TemporarilyUnavailable,
        StoreError::Permanent => ServiceError::InvalidRequest,
    }
}

} // verus!
