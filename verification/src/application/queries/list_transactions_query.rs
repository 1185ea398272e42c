//! The questions which transactions there are.

use vstd::prelude::*;

verus! {

/// Asks for every transaction.
#[derive(Debug, Clone, Copy)]
pub struct ListTransactionsQuery;

impl ListTransactionsQuery {
    /// The question for every transaction.
    pub fn new() -> (r: ListTransactionsQuery)
        ensures
            r == ListTransactionsQuery,
    {
        ListTransactionsQuery
    }
}

impl Default for ListTransactionsQuery {
    fn default() -> (r: Self)
        ensures
            r == ListTransactionsQuery,
    {
        Self::new()
    }
}

/// Asks for the transactions of one account.
#[derive(Debug, Clone, Copy)]
pub struct GetTransactionsByAccountQuery {
    pub account_id: i32,
}

impl GetTransactionsByAccountQuery {
    /// The question for the transactions of this account.
    pub fn new(account_id: i32) -> (r: GetTransactionsByAccountQuery)
        ensures
            r == (GetTransactionsByAccountQuery { account_id }),
    {
        GetTransactionsByAccountQuery { account_id }
    }
}

} // verus!
