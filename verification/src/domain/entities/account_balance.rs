//! A snapshot: the balance of an account as it was computed at some point
//! in time.

use crate::domain::value_objects::Money;
use chrono::NaiveDateTime;
use vstd::prelude::*;

verus! {

/// A cached balance of an account. It is not authoritative: the balance can
/// always be computed anew from the account's ledger events.
#[derive(Debug, Clone, Copy)]
pub struct AccountBalance {
    /// Given by the store when the snapshot is saved.
    pub id: Option<i32>,
    pub account_id: i32,
    pub balance: Money,
    /// When the store took the snapshot.
    pub snapshot_at: Option<NaiveDateTime>,
}

/// The mathematical model of an [`AccountBalance`].
pub struct AccountBalanceView {
    pub id: Option<i32>,
    pub account_id: i32,
    pub balance: int,
    pub snapshot_at: Option<NaiveDateTime>,
}

impl View for AccountBalance {
    type V = AccountBalanceView;

    open spec fn view(&self) -> AccountBalanceView {
        AccountBalanceView {
            id: self.id,
            account_id: self.account_id,
            balance: self.balance@,
            snapshot_at: self.snapshot_at,
        }
    }
}

impl AccountBalance {
    /// A balance that has not been stored: without identifier and without
    /// time stamp.
    pub fn new(account_id: i32, balance: Money) -> (r: AccountBalance)
        ensures
            r == (AccountBalance { id: None, account_id, balance, snapshot_at: None }),
    {
        AccountBalance { id: None, account_id, balance, snapshot_at: None }
    }
}

} // verus!
