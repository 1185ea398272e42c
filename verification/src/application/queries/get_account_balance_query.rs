//! The question what the balance of an account is.

use vstd::prelude::*;

verus! {

/// Asks for the balance of an account.
#[derive(Debug, Clone, Copy)]
pub struct GetAccountBalanceQuery {
    pub account_id: i32,
    /// Whether the latest snapshot, if there is one, answers the question;
    /// otherwise the balance is computed from the events.
    pub use_snapshot: bool,
}

impl GetAccountBalanceQuery {
    /// Asks for the balance as the events give it.
    pub fn new(account_id: i32) -> (r: GetAccountBalanceQuery)
        ensures
            r == (GetAccountBalanceQuery { account_id, use_snapshot: false }),
    {
        GetAccountBalanceQuery { account_id, use_snapshot: false }
    }

    /// Asks for the balance of the latest snapshot, where there is one.
    pub fn with_snapshot(account_id: i32) -> (r: GetAccountBalanceQuery)
        ensures
            r == (GetAccountBalanceQuery { account_id, use_snapshot: true }),
    {
        GetAccountBalanceQuery { account_id, use_snapshot: true }
    }
}

} // verus!
