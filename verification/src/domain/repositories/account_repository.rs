//! The store of accounts.

use crate::domain::entities::Account;
use crate::domain::errors::DomainResult;
use crate::domain::value_objects::AccountNumber;
use vstd::prelude::*;

verus! {

/// The store of accounts. It owns the uniqueness of account numbers: a
/// check before saving is not atomic with the save.
pub trait AccountRepository: Send + Sync {
    /// Stores a new account and returns it with the identifier and the time
    /// stamps that the store gave it. The ledger hands over valid accounts
    /// only.
    fn save(&self, account: &Account) -> DomainResult<Account>
        requires
            account.is_valid(),
    ;

    /// The account with this identifier.
    fn find_by_id(&self, id: i32) -> DomainResult<Account>;

    /// The account with this account number.
    fn find_by_account_number(&self, account_number: &AccountNumber) -> DomainResult<Account>;

    /// Every account.
    fn find_all(&self) -> DomainResult<Vec<Account>>;

    /// Whether an account with this account number is stored.
    fn exists_by_account_number(&self, account_number: &AccountNumber) -> DomainResult<bool>;
}

} // verus!
