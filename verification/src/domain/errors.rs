//! The errors of the domain and the messages they carry.

use crate::text::{decimal, decimal_string};
use vstd::prelude::*;

verus! {

/// Everything that can go wrong inside the ledger's domain.
#[derive(Debug)]
pub enum DomainError {
    AccountNotFound(String),
    TransactionNotFound(i32),
    InsufficientBalance { required: i64, available: i64 },
    InvalidAmount(i64),
    InvalidAccountNumber(String),
    InvalidTransactionType(String),
    DuplicateAccountNumber(String),
    RepositoryError(String),
    ValidationError(String),
}

pub type DomainResult<T> = Result<T, DomainError>;

/// The mathematical model of a [`DomainError`]: texts are sequences of
/// characters and numbers are unbounded integers.
pub enum DomainErrorView {
    AccountNotFound(Seq<char>),
    TransactionNotFound(int),
    InsufficientBalance { required: int, available: int },
    InvalidAmount(int),
    InvalidAccountNumber(Seq<char>),
    InvalidTransactionType(Seq<char>),
    DuplicateAccountNumber(Seq<char>),
    RepositoryError(Seq<char>),
    ValidationError(Seq<char>),
}

impl DomainErrorView {
    /// The message that describes the error to a person.
    pub open spec fn message(self) -> Seq<char> {
        match self {
            DomainErrorView::AccountNotFound(what) => "Account not found: "@ + what,
            DomainErrorView::TransactionNotFound(id) => "Transaction not found: "@ + decimal(id),
            DomainErrorView::InsufficientBalance { required, available } =>
                "Insufficient balance: required "@ + decimal(required) + ", available "@ + decimal(
                    available,
                ),
            DomainErrorView::InvalidAmount(amount) => "Invalid amount: "@ + decimal(amount),
            DomainErrorView::InvalidAccountNumber(why) => "Invalid account number: "@ + why,
            DomainErrorView::InvalidTransactionType(what) => "Invalid transaction type: "@ + what,
            DomainErrorView::DuplicateAccountNumber(number) => "Duplicate account number: "@
                + number,
            DomainErrorView::RepositoryError(why) => "Repository error: "@ + why,
            DomainErrorView::ValidationError(why) => "Validation error: "@ + why,
        }
    }
}

impl View for DomainError {
    type V = DomainErrorView;

    open spec fn view(&self) -> DomainErrorView {
        match self {
            DomainError::AccountNotFound(what) => DomainErrorView::AccountNotFound(what@),
            DomainError::TransactionNotFound(id) => DomainErrorView::TransactionNotFound(
                *id as int,
            ),
            DomainError::InsufficientBalance { required, available } =>
                DomainErrorView::InsufficientBalance {
                    required: *required as int,
                    available: *available as int,
                },
            DomainError::InvalidAmount(amount) => DomainErrorView::InvalidAmount(*amount as int),
            DomainError::InvalidAccountNumber(why) => DomainErrorView::InvalidAccountNumber(why@),
            DomainError::InvalidTransactionType(what) => DomainErrorView::InvalidTransactionType(
                what@,
            ),
            DomainError::DuplicateAccountNumber(number) => DomainErrorView::DuplicateAccountNumber(
                number@,
            ),
            DomainError::RepositoryError(why) => DomainErrorView::RepositoryError(why@),
            DomainError::ValidationError(why) => DomainErrorView::ValidationError(why@),
        }
    }
}

/// The model of a fallible result: the view of the value, or the view of the
/// error.
pub open spec fn outcome<T: View>(r: DomainResult<T>) -> Result<T::V, DomainErrorView> {
    match r {
        Ok(value) => Ok(value@),
        Err(error) => Err(error@),
    }
}

impl DomainError {
    /// Renders the error as its message.
    pub fn to_string(&self) -> (s: String)
        ensures
            s@ == self@.message(),
    {
        match self {
            DomainError::AccountNotFound(what) => String::from_str("Account not found: ").concat(
                what.as_str(),
            ),
            DomainError::TransactionNotFound(id) => {
                let number = decimal_string(*id as i64);
                String::from_str("Transaction not found: ").concat(number.as_str())
            },
            DomainError::InsufficientBalance { required, available } => {
                let required = decimal_string(*required);
                let available = decimal_string(*available);
                String::from_str("Insufficient balance: required ").concat(
                    required.as_str(),
                ).concat(", available ").concat(available.as_str())
            },
            DomainError::InvalidAmount(amount) => {
                let number = decimal_string(*amount);
                String::from_str("Invalid amount: ").concat(number.as_str())
            },
            DomainError::InvalidAccountNumber(why) => String::from_str(
                "Invalid account number: ",
            ).concat(why.as_str()),
            DomainError::InvalidTransactionType(what) => String::from_str(
                "Invalid transaction type: ",
            ).concat(what.as_str()),
            DomainError::DuplicateAccountNumber(number) => String::from_str(
                "Duplicate account number: ",
            ).concat(number.as_str()),
            DomainError::RepositoryError(why) => String::from_str("Repository error: ").concat(
                why.as_str(),
            ),
            DomainError::ValidationError(why) => String::from_str("Validation error: ").concat(
                why.as_str(),
            ),
        }
    }
}

} // verus!
