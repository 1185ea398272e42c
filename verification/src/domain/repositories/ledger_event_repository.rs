//! The append-only store of ledger events.

use crate::domain::entities::LedgerEvent;
use crate::domain::errors::DomainResult;
use vstd::prelude::*;

verus! {

/// The store of ledger events. Events are appended, never changed or
/// removed.
pub trait LedgerEventRepository: Send + Sync {
    /// Appends an event and returns it with the identifier and the time
    /// stamp that the store gave it. The ledger hands over valid events only.
    fn save(&self, event: &LedgerEvent) -> DomainResult<LedgerEvent>
        requires
            event.is_valid(),
    ;

    /// The events of one account, oldest first.
    fn find_by_account_id(&self, account_id: i32) -> DomainResult<Vec<LedgerEvent>>;

    /// Every event.
    fn find_all(&self) -> DomainResult<Vec<LedgerEvent>>;

    /// The balance of one account: what
    /// [`calculate_balance`](crate::domain::services::calculate_balance)
    /// gives for the events of the account, oldest first.
    fn calculate_balance(&self, account_id: i32) -> DomainResult<i64>;
}

} // verus!
