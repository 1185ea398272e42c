//! Listing the events of the ledger.

use crate::application::queries::ListLedgerEventsQuery;
use crate::domain::entities::LedgerEvent;
use crate::domain::errors::DomainResult;
use crate::domain::repositories::LedgerEventRepository;
use std::sync::Arc;
use vstd::prelude::*;

verus! {

/// Lists the events of one account, or every event.
pub struct ListLedgerEventsHandler<R: LedgerEventRepository> {
    event_repository: Arc<R>,
}

impl<R: LedgerEventRepository> ListLedgerEventsHandler<R> {
    /// The store of events that the handler works on.
    pub closed spec fn repository(&self) -> Arc<R> {
        self.event_repository
    }

    /// What the handler may return for a query on a store: the events that
    /// the store finds for the account of the query, or, where the query
    /// names no account, all the events that it finds. The order is the
    /// store's.
    pub open spec fn handled(
        repository: &R,
        query: ListLedgerEventsQuery,
        r: DomainResult<Vec<LedgerEvent>>,
    ) -> bool {
        match query.account_id {
            Some(account_id) => call_ensures(R::find_by_account_id, (repository, account_id), r),
            None => call_ensures(R::find_all, (repository,), r),
        }
    }

    /// A handler on the store given.
    pub fn new(event_repository: Arc<R>) -> (r: Self)
        ensures
            r.repository() == event_repository,
    {
        ListLedgerEventsHandler { event_repository }
    }

    /// The events that the query asks for.
    pub fn handle(&self, query: ListLedgerEventsQuery) -> (r: DomainResult<Vec<LedgerEvent>>)
        ensures
            Self::handled(&*self.repository(), query, r),
    {
        match query.account_id {
            Some(account_id) => self.event_repository.find_by_account_id(account_id),
            None => self.event_repository.find_all(),
        }
    }
}

} // verus!
