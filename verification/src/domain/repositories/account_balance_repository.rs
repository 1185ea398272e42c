//! The store of balance snapshots.

use crate::domain::entities::AccountBalance;
use crate::domain::errors::DomainResult;
use vstd::prelude::*;

verus! {

/// The store of balance snapshots. Snapshots pile up: none replaces an
/// earlier one.
pub trait AccountBalanceRepository: Send + Sync {
    /// Stores a new snapshot and returns it with the identifier and the time
    /// stamp that the store gave it.
    fn save(&self, balance: &AccountBalance) -> DomainResult<AccountBalance>;

    /// The most recent snapshot of one account, if it has any.
    fn find_latest_by_account_id(&self, account_id: i32) -> DomainResult<Option<AccountBalance>>;

    /// The snapshots of one account, newest first.
    fn find_all_by_account_id(&self, account_id: i32) -> DomainResult<Vec<AccountBalance>>;
}

} // verus!
