//! The points in time that the persistence collaborator stamps on what it
//! stores.

use vstd::prelude::*;

verus! {

/// `chrono::NaiveDateTime`: a calendar date with a time of day, without a
/// time zone. Nothing is claimed of its contents: the ledger never reads a
/// time stamp, it only carries it from the store to the caller.
#[verifier::external_type_specification]
#[verifier::external_body]
pub struct ExNaiveDateTime(chrono::NaiveDateTime);

} // verus!
