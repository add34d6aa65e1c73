//! The closed taxonomy of failure reasons and its HTTP status mapping.

use vstd::prelude::*;

verus! {

/// A semantic failure reason. The set is closed: every variant is mapped
/// explicitly both by `status_of` and by the rendering dispatch, with no
/// default arm that could silently mis-render a new category.
#[derive(Debug, Copy, Clone, PartialEq, Eq, Structural)]
pub enum Nope {
    ResourceNotFound,
    BuildNotFound,
    CrateNotFound,
    OwnerNotFound,
    VersionNotFound,
    NoResults,
    InternalServerError,
}

/// The HTTP status owed to each failure reason: every variant is
/// "Not Found" (404) except `InternalServerError`, which is 500.
pub open spec fn spec_status_of(kind: Nope) -> u16 {
    if kind is InternalServerError {
        500
    } else {
        404
    }
}

/// Maps a failure reason to its HTTP status code. The match is exhaustive
/// over the closed enumeration, so adding a variant without extending this
/// table is a build-time error.
pub fn status_of(kind: Nope) -> (status: u16)
    ensures
        status == spec_status_of(kind),
{
    match kind {
        Nope::ResourceNotFound
        | Nope::BuildNotFound
        | Nope::CrateNotFound
        | Nope::OwnerNotFound
        | Nope::VersionNotFound
        | Nope::NoResults => 404,
        Nope::InternalServerError => 500,
    }
}

/// Any failure of the shared resource pool is normalized into an opaque
/// internal failure: its response status is always 500, bypassing the
/// `Nope` taxonomy. The pool-failure detail is not inspected here; it is
/// expected to have been logged before the conversion.
pub fn pool_failure_status() -> (status: u16)
    ensures
        status == 500,
{
    500
}

} // verus!
