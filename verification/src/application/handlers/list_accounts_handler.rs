//! Listing the accounts.

use crate::application::queries::ListAccountsQuery;
use crate::domain::entities::Account;
use crate::domain::errors::DomainResult;
use crate::domain::repositories::AccountRepository;
use std::sync::Arc;
use vstd::prelude::*;

verus! {

/// Lists every account.
pub struct ListAccountsHandler<R: AccountRepository> {
    account_repository: Arc<R>,
}

impl<R: AccountRepository> ListAccountsHandler<R> {
    /// The store of accounts that the handler works on.
    pub closed spec fn repository(&self) -> Arc<R> {
        self.account_repository
    }

    /// A handler on the store given.
    pub fn new(account_repository: Arc<R>) -> (r: Self)
        ensures
            r.repository() == account_repository,
    {
        ListAccountsHandler { account_repository }
    }

    /// Every account, as the store finds them.
    pub fn handle(&self, _query: ListAccountsQuery) -> (r: DomainResult<Vec<Account>>)
        ensures
            call_ensures(R::find_all, (&*self.repository(),), r),
    {
        self.account_repository.find_all()
    }
}

} // verus!
