//! The request to record a transaction.

use vstd::prelude::*;

verus! {

/// Records a deposit, a withdrawal or a transfer.
#[derive(Debug)]
pub struct CreateTransactionCommand {
    pub from_account_id: Option<i32>,
    pub to_account_id: Option<i32>,
    pub amount: i64,
    /// `deposit`, `withdrawal` or `transfer`, in any case of letters.
    pub transaction_type: String,
    pub description: Option<String>,
}

impl CreateTransactionCommand {
    /// The request to record a transaction of this kind and amount.
    pub fn new(
        from_account_id: Option<i32>,
        to_account_id: Option<i32>,
        amount: i64,
        transaction_type: String,
        description: Option<String>,
    ) -> (r: CreateTransactionCommand)
        ensures
            r == (CreateTransactionCommand {
                from_account_id,
                to_account_id,
                amount,
                transaction_type,
                description,
            }),
    {
        CreateTransactionCommand {
            from_account_id,
            to_account_id,
            amount,
            transaction_type,
            description,
        }
    }

    /// The request to record a deposit into an account.
    pub fn new_deposit(to_account_id: i32, amount: i64, description: Option<String>) -> (r:
        CreateTransactionCommand)
        ensures
            r.from_account_id == None::<i32>,
            r.to_account_id == Some(to_account_id),
            r.amount == amount,
            r.transaction_type@ == "deposit"@,
            r.description == description,
    {
        Self::new(None, Some(to_account_id), amount, String::from_str("deposit"), description)
    }

    /// The request to record a withdrawal from an account.
    pub fn new_withdrawal(from_account_id: i32, amount: i64, description: Option<String>) -> (r:
        CreateTransactionCommand)
        ensures
            r.from_account_id == Some(from_account_id),
            r.to_account_id == None::<i32>,
            r.amount == amount,
            r.transaction_type@ == "withdrawal"@,
            r.description == description,
    {
        Self::new(
            Some(from_account_id),
            None,
            amount,
            String::from_str("withdrawal"),
            description,
        )
    }

    /// The request to record a transfer from one account to another.
    pub fn new_transfer(
        from_account_id: i32,
        to_account_id: i32,
        amount: i64,
        description: Option<String>,
    ) -> (r: CreateTransactionCommand)
        ensures
            r.from_account_id == Some(from_account_id),
            r.to_account_id == Some(to_account_id),
            r.amount == amount,
            r.transaction_type@ == "transfer"@,
            r.description == description,
    {
        Self::new(
            Some(from_account_id),
            Some(to_account_id),
            amount,
            String::from_str("transfer"),
            description,
        )
    }
}

impl Clone for CreateTransactionCommand {
    fn clone(&self) -> (r: Self)
        ensures
            r == *self,
    {
        let description = match &self.description {
            Some(text) => Some(text.clone()),
            None => None,
        };
        CreateTransactionCommand {
            from_account_id: self.from_account_id,
            to_account_id: self.to_account_id,
            amount: self.amount,
            transaction_type: self.transaction_type.clone(),
            description,
        }
    }
}

} // verus!
