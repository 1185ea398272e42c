//! The request to append an event to the ledger.

use vstd::prelude::*;

verus! {

/// Appends a debit or a credit to the ledger of an account.
#[derive(Debug)]
pub struct CreateLedgerEventCommand {
    pub account_id: i32,
    /// `DEBIT` or `CREDIT`, in any case of letters.
    pub event_type: String,
    pub amount: i64,
    pub description: Option<String>,
}

impl CreateLedgerEventCommand {
    /// The request to append an event of this direction and amount.
    pub fn new(account_id: i32, event_type: String, amount: i64, description: Option<String>) -> (r:
        CreateLedgerEventCommand)
        ensures
            r == (CreateLedgerEventCommand { account_id, event_type, amount, description }),
    {
        CreateLedgerEventCommand { account_id, event_type, amount, description }
    }

    /// The request to append a debit.
    pub fn new_debit(account_id: i32, amount: i64, description: Option<String>) -> (r:
        CreateLedgerEventCommand)
        ensures
            r.account_id == account_id,
            r.event_type@ == "DEBIT"@,
            r.amount == amount,
            r.description == description,
    {
        Self::new(account_id, String::from_str("DEBIT"), amount, description)
    }

    /// The request to append a credit.
    pub fn new_credit(account_id: i32, amount: i64, description: Option<String>) -> (r:
        CreateLedgerEventCommand)
        ensures
            r.account_id == account_id,
            r.event_type@ == "CREDIT"@,
            r.amount == amount,
            r.description == description,
    {
        Self::new(account_id, String::from_str("CREDIT"), amount, description)
    }
}

impl Clone for CreateLedgerEventCommand {
    fn clone(&self) -> (r: Self)
        ensures
            r == *self,
    {
        let description = match &self.description {
            Some(text) => Some(text.clone()),
            None => None,
        };
        CreateLedgerEventCommand {
            account_id: self.account_id,
            event_type: self.event_type.clone(),
            amount: self.amount,
            description,
        }
    }
}

} // verus!
