//! The requests as they arrive, and the commands and queries that they
//! stand for.

use crate::application::commands::{CreateAccountCommand, CreateLedgerEventCommand};
use crate::application::queries::ListLedgerEventsQuery;
use vstd::prelude::*;

verus! {

/// The body of a request to open an account.
#[derive(Debug)]
pub struct CreateAccountRequest {
    pub account_number: String,
    pub account_name: String,
}

impl CreateAccountRequest {
    /// The command that the request stands for.
    pub fn into_command(self) -> (r: CreateAccountCommand)
        ensures
            r == (CreateAccountCommand {
                account_number: self.account_number,
                account_name: self.account_name,
            }),
    {
        CreateAccountCommand::new(self.account_number, self.account_name)
    }
}

/// The body of a request to append an event to the ledger.
#[derive(Debug)]
pub struct CreateLedgerEventRequest {
    pub account_id: i32,
    /// `DEBIT` or `CREDIT`, in any case of letters.
    pub event_type: String,
    pub amount: i64,
    pub description: Option<String>,
}

impl CreateLedgerEventRequest {
    /// The command that the request stands for.
    pub fn into_command(self) -> (r: CreateLedgerEventCommand)
        ensures
            r == (CreateLedgerEventCommand {
                account_id: self.account_id,
                event_type: self.event_type,
                amount: self.amount,
                description: self.description,
            }),
    {
        CreateLedgerEventCommand::new(
            self.account_id,
            self.event_type,
            self.amount,
            self.description,
        )
    }
}

/// The parameters of a request to list events.
#[derive(Debug, Clone, Copy)]
pub struct ListEventsQuery {
    /// The account whose events are asked for; `None` asks for all events.
    pub account_id: Option<i32>,
}

impl ListEventsQuery {
    /// The query that the parameters stand for.
    pub fn into_query(self) -> (r: ListLedgerEventsQuery)
        ensures
            r == (ListLedgerEventsQuery { account_id: self.account_id }),
    {
        match self.account_id {
            Some(account_id) => ListLedgerEventsQuery::for_account(account_id),
            None => ListLedgerEventsQuery::new(),
        }
    }
}

} // verus!
