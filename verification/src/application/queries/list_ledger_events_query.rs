//! The question which events the ledger holds.

use vstd::prelude::*;

verus! {

/// Asks for the events of one account, or for every event.
#[derive(Debug, Clone, Copy)]
pub struct ListLedgerEventsQuery {
    /// The account whose events are asked for; `None` asks for all events.
    pub account_id: Option<i32>,
}

impl ListLedgerEventsQuery {
    /// Asks for every event.
    pub fn new() -> (r: ListLedgerEventsQuery)
        ensures
            r == (ListLedgerEventsQuery { account_id: None }),
    {
        ListLedgerEventsQuery { account_id: None }
    }

    /// Asks for the events of one account.
    pub fn for_account(account_id: i32) -> (r: ListLedgerEventsQuery)
        ensures
            r == (ListLedgerEventsQuery { account_id: Some(account_id) }),
    {
        ListLedgerEventsQuery { account_id: Some(account_id) }
    }
}

impl Default for ListLedgerEventsQuery {
    fn default() -> (r: Self)
        ensures
            r == (ListLedgerEventsQuery { account_id: None }),
    {
        Self::new()
    }
}

} // verus!
