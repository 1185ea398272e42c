//! The questions for one account.

use vstd::prelude::*;

verus! {

/// Asks for the account with an identifier.
#[derive(Debug, Clone, Copy)]
pub struct GetAccountQuery {
    pub account_id: i32,
}

impl GetAccountQuery {
    /// The question for the account with this identifier.
    pub fn new(account_id: i32) -> (r: GetAccountQuery)
        ensures
            r == (GetAccountQuery { account_id }),
    {
        GetAccountQuery { account_id }
    }
}

/// Asks for the account with an account number.
#[derive(Debug)]
pub struct GetAccountByNumberQuery {
    pub account_number: String,
}

impl GetAccountByNumberQuery {
    /// The question for the account with this account number.
    pub fn new(account_number: String) -> (r: GetAccountByNumberQuery)
        ensures
            r == (GetAccountByNumberQuery { account_number }),
    {
        GetAccountByNumberQuery { account_number }
    }
}

impl Clone for GetAccountByNumberQuery {
    fn clone(&self) -> (r: Self)
        ensures
            r == *self,
    {
        GetAccountByNumberQuery { account_number: self.account_number.clone() }
    }
}

} // verus!
