//! An account: an identity and a display name. Its balance is not stored
//! here; it is derived from the account's ledger events.

use crate::domain::errors::{DomainError, DomainErrorView, DomainResult};
use crate::domain::value_objects::AccountNumber;
use chrono::NaiveDateTime;
use vstd::prelude::*;

verus! {

/// An account of the ledger.
#[derive(Debug)]
pub struct Account {
    /// Given by the store when the account is first saved.
    pub id: Option<i32>,
    /// Unique among all accounts.
    pub account_number: AccountNumber,
    pub account_name: String,
    pub created_at: Option<NaiveDateTime>,
    pub updated_at: Option<NaiveDateTime>,
}

/// The mathematical model of an [`Account`].
pub struct AccountView {
    pub id: Option<i32>,
    pub account_number: Seq<char>,
    pub account_name: Seq<char>,
    pub created_at: Option<NaiveDateTime>,
    pub updated_at: Option<NaiveDateTime>,
}

impl View for Account {
    type V = AccountView;

    open spec fn view(&self) -> AccountView {
        AccountView {
            id: self.id,
            account_number: self.account_number@,
            account_name: self.account_name@,
            created_at: self.created_at,
            updated_at: self.updated_at,
        }
    }
}

impl Account {
    /// Whether the account may be stored: its name is not empty.
    pub open spec fn is_valid(&self) -> bool {
        self.account_name@.len() > 0
    }

    /// An account that has not been stored yet: without identifier and
    /// without time stamps.
    pub fn new(account_number: AccountNumber, account_name: String) -> (r: Account)
        ensures
            r == (Account {
                id: None,
                account_number,
                account_name,
                created_at: None,
                updated_at: None,
            }),
    {
        Account { id: None, account_number, account_name, created_at: None, updated_at: None }
    }

    /// Checks that the account may be stored.
    pub fn validate(&self) -> (r: DomainResult<()>)
        ensures
            self.is_valid() ==> r is Ok,
            !self.is_valid() ==> r is Err && r->Err_0@ == DomainErrorView::ValidationError(
                "Account name cannot be empty"@,
            ),
    {
        if self.account_name.as_str().is_empty() {
            return Err(
                DomainError::ValidationError(String::from_str("Account name cannot be empty")),
            );
        }
        Ok(())
    }
}

impl Clone for Account {
    fn clone(&self) -> (r: Self)
        ensures
            r@ == self@,
    {
        Account {
            id: self.id,
            account_number: self.account_number.clone(),
            account_name: self.account_name.clone(),
            created_at: self.created_at,
            updated_at: self.updated_at,
        }
    }
}

} // verus!
