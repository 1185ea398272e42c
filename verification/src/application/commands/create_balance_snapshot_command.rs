//! The request to take a snapshot of an account's balance.

use vstd::prelude::*;

verus! {

/// Computes the balance of an account from its events and stores it as a
/// new snapshot.
#[derive(Debug, Clone, Copy)]
pub struct CreateBalanceSnapshotCommand {
    pub account_id: i32,
}

impl CreateBalanceSnapshotCommand {
    /// The request to take a snapshot of this account.
    pub fn new(account_id: i32) -> (r: CreateBalanceSnapshotCommand)
        ensures
            r == (CreateBalanceSnapshotCommand { account_id }),
    {
        CreateBalanceSnapshotCommand { account_id }
    }
}

} // verus!
