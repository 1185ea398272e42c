//! The store of transactions.

use crate::domain::entities::Transaction;
use crate::domain::errors::DomainResult;
use vstd::prelude::*;

verus! {

/// The store of transactions.
pub trait TransactionRepository: Send + Sync {
    /// Stores a new transaction and returns it with the identifier and the
    /// time stamp that the store gave it.
    fn save(&self, transaction: &Transaction) -> DomainResult<Transaction>;

    /// The transaction with this identifier.
    fn find_by_id(&self, id: i32) -> DomainResult<Transaction>;

    /// Every transaction.
    fn find_all(&self) -> DomainResult<Vec<Transaction>>;

    /// The transactions that give to or take from one account.
    fn find_by_account_id(&self, account_id: i32) -> DomainResult<Vec<Transaction>>;
}

} // verus!
