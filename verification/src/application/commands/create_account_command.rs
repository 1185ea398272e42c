//! The request to open an account.

use vstd::prelude::*;

verus! {

/// Opens an account under an account number that no other account has.
#[derive(Debug)]
pub struct CreateAccountCommand {
    pub account_number: String,
    pub account_name: String,
}

impl CreateAccountCommand {
    /// The request to open an account under this number and name.
    pub fn new(account_number: String, account_name: String) -> (r: CreateAccountCommand)
        ensures
            r == (CreateAccountCommand { account_number, account_name }),
    {
        CreateAccountCommand { account_number, account_name }
    }
}

impl Clone for CreateAccountCommand {
    fn clone(&self) -> (r: Self)
        ensures
            r == *self,
    {
        CreateAccountCommand {
            account_number: self.account_number.clone(),
            account_name: self.account_name.clone(),
        }
    }
}

} // verus!
