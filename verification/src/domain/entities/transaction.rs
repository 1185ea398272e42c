//! A transaction: a movement of money into, out of or between accounts.

use crate::domain::value_objects::{Money, TransactionType};
use crate::text::optional_text;
use chrono::NaiveDateTime;
use vstd::prelude::*;

verus! {

/// A movement of money. A deposit has only a receiving account, a
/// withdrawal only a giving one, a transfer both.
#[derive(Debug)]
pub struct Transaction {
    /// Given by the store when the transaction is saved.
    pub id: Option<i32>,
    pub from_account_id: Option<i32>,
    pub to_account_id: Option<i32>,
    pub amount: Money,
    pub transaction_type: TransactionType,
    pub description: Option<String>,
    pub created_at: Option<NaiveDateTime>,
}

/// The mathematical model of a [`Transaction`].
pub struct TransactionView {
    pub id: Option<i32>,
    pub from_account_id: Option<i32>,
    pub to_account_id: Option<i32>,
    pub amount: int,
    pub transaction_type: TransactionType,
    pub description: Option<Seq<char>>,
    pub created_at: Option<NaiveDateTime>,
}

impl View for Transaction {
    type V = TransactionView;

    open spec fn view(&self) -> TransactionView {
        TransactionView {
            id: self.id,
            from_account_id: self.from_account_id,
            to_account_id: self.to_account_id,
            amount: self.amount@,
            transaction_type: self.transaction_type,
            description: optional_text(self.description),
            created_at: self.created_at,
        }
    }
}

impl Transaction {
    /// A transaction that has not been stored yet: without identifier and
    /// without time stamp.
    pub fn new(
        from_account_id: Option<i32>,
        to_account_id: Option<i32>,
        amount: Money,
        transaction_type: TransactionType,
        description: Option<String>,
    ) -> (r: Transaction)
        ensures
            r == (Transaction {
                id: None,
                from_account_id,
                to_account_id,
                amount,
                transaction_type,
                description,
                created_at: None,
            }),
    {
        Transaction {
            id: None,
            from_account_id,
            to_account_id,
            amount,
            transaction_type,
            description,
            created_at: None,
        }
    }

    /// A deposit into an account.
    pub fn new_deposit(to_account_id: i32, amount: Money, description: Option<String>) -> (r:
        Transaction)
        ensures
            r == (Transaction {
                id: None,
                from_account_id: None,
                to_account_id: Some(to_account_id),
                amount,
                transaction_type: TransactionType::Deposit,
                description,
                created_at: None,
            }),
    {
        Self::new(None, Some(to_account_id), amount, TransactionType::Deposit, description)
    }

    /// A withdrawal from an account.
    pub fn new_withdrawal(from_account_id: i32, amount: Money, description: Option<String>) -> (r:
        Transaction)
        ensures
            r == (Transaction {
                id: None,
                from_account_id: Some(from_account_id),
                to_account_id: None,
                amount,
                transaction_type: TransactionType::Withdrawal,
                description,
                created_at: None,
            }),
    {
        Self::new(Some(from_account_id), None, amount, TransactionType::Withdrawal, description)
    }

    /// A transfer from one account to another.
    pub fn new_transfer(
        from_account_id: i32,
        to_account_id: i32,
        amount: Money,
        description: Option<String>,
    ) -> (r: Transaction)
        ensures
            r == (Transaction {
                id: None,
                from_account_id: Some(from_account_id),
                to_account_id: Some(to_account_id),
                amount,
                transaction_type: TransactionType::Transfer,
                description,
                created_at: None,
            }),
    {
        Self::new(
            Some(from_account_id),
            Some(to_account_id),
            amount,
            TransactionType::Transfer,
            description,
        )
    }
}

impl Clone for Transaction {
    fn clone(&self) -> (r: Self)
        ensures
            r@ == self@,
    {
        let description = match &self.description {
            Some(text) => Some(text.clone()),
            None => None,
        };
        Transaction {
            id: self.id,
            from_account_id: self.from_account_id,
            to_account_id: self.to_account_id,
            amount: self.amount,
            transaction_type: self.transaction_type,
            description,
            created_at: self.created_at,
        }
    }
}

} // verus!
