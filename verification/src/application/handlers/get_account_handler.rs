//! Looking an account up.

use crate::application::queries::{GetAccountByNumberQuery, GetAccountQuery};
use crate::domain::entities::account::AccountView;
use crate::domain::entities::Account;
use crate::domain::errors::{outcome, DomainErrorView, DomainResult};
use crate::domain::repositories::AccountRepository;
use crate::domain::value_objects::AccountNumber;
use std::sync::Arc;
use vstd::prelude::*;

verus! {

/// Looks accounts up, by identifier or by account number.
pub struct GetAccountHandler<R: AccountRepository> {
    account_repository: Arc<R>,
}

impl<R: AccountRepository> GetAccountHandler<R> {
    /// The store of accounts that the handler works on.
    pub closed spec fn repository(&self) -> Arc<R> {
        self.account_repository
    }

    /// What a lookup by account number may return on a store: the error of
    /// an account number that is not valid, whatever the store holds; else
    /// what the store finds under that number.
    pub open spec fn handled_by_number(
        repository: &R,
        query: GetAccountByNumberQuery,
        r: DomainResult<Account>,
    ) -> bool {
        match AccountNumber::spec_new(query.account_number@) {
            Err(error) => outcome(r) == Err::<AccountView, DomainErrorView>(error),
            Ok(text) => exists|account_number: AccountNumber|
                account_number@ == text && #[trigger] call_ensures(
                    R::find_by_account_number,
                    (repository, &account_number),
                    r,
                ),
        }
    }

    /// A handler on the store given.
    pub fn new(account_repository: Arc<R>) -> (r: Self)
        ensures
            r.repository() == account_repository,
    {
        GetAccountHandler { account_repository }
    }

    /// The account with the identifier of the query, as the store finds it.
    pub fn handle(&self, query: GetAccountQuery) -> (r: DomainResult<Account>)
        ensures
            call_ensures(R::find_by_id, (&*self.repository(), query.account_id), r),
    {
        self.account_repository.find_by_id(query.account_id)
    }

    /// The account with the account number of the query, as the store finds
    /// it.
    pub fn handle_by_number(&self, query: GetAccountByNumberQuery) -> (r: DomainResult<Account>)
        ensures
            Self::handled_by_number(&*self.repository(), query, r),
    {
        let account_number = AccountNumber::new(query.account_number)?;
        self.account_repository.find_by_account_number(&account_number)
    }
}

} // verus!
