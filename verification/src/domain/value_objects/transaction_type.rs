//! The kinds of transaction between accounts.

use crate::domain::errors::{outcome, DomainError, DomainErrorView, DomainResult};
use crate::text::{is_text, lowercase, to_lowercase};
use vstd::prelude::*;

verus! {

/// The kind of a transaction.
#[derive(Debug, Clone, Copy, PartialEq, Eq, Structural)]
pub enum TransactionType {
    Deposit,
    Withdrawal,
    Transfer,
}

impl View for TransactionType {
    type V = TransactionType;

    open spec fn view(&self) -> TransactionType {
        *self
    }
}

impl TransactionType {
    /// The kind that a lower-case name stands for; `given` is the text
    /// that the error reports when the name stands for none.
    pub open spec fn spec_from_lowercase(lower: Seq<char>, given: Seq<char>) -> Result<
        TransactionType,
        DomainErrorView,
    > {
        if lower == "deposit"@ {
            Ok(TransactionType::Deposit)
        } else if lower == "withdrawal"@ {
            Ok(TransactionType::Withdrawal)
        } else if lower == "transfer"@ {
            Ok(TransactionType::Transfer)
        } else {
            Err(DomainErrorView::InvalidTransactionType(given))
        }
    }

    /// The name of a kind, in lower case.
    pub open spec fn spec_as_str(self) -> Seq<char> {
        match self {
            TransactionType::Deposit => "deposit"@,
            TransactionType::Withdrawal => "withdrawal"@,
            TransactionType::Transfer => "transfer"@,
        }
    }

    /// Reads a kind from its lower-case name.
    pub fn from_lowercase(lower: &str, given: &str) -> (r: DomainResult<TransactionType>)
        ensures
            outcome(r) == Self::spec_from_lowercase(lower@, given@),
    {
        if is_text(lower, "deposit") {
            Ok(TransactionType::Deposit)
        } else if is_text(lower, "withdrawal") {
            Ok(TransactionType::Withdrawal)
        } else if is_text(lower, "transfer") {
            Ok(TransactionType::Transfer)
        } else {
            Err(DomainError::InvalidTransactionType(String::from_str(given)))
        }
    }

    /// Reads a kind from its name, whatever the case of its letters.
    pub fn from_string(s: &str) -> (r: DomainResult<TransactionType>)
        ensures
            outcome(r) == Self::spec_from_lowercase(lowercase(s@), s@),
    {
        let lower = to_lowercase(s);
        Self::from_lowercase(lower.as_str(), s)
    }

    /// The name of the kind, in lower case.
    pub fn as_str(&self) -> (r: &str)
        ensures
            r@ == self.spec_as_str(),
    {
        match self {
            TransactionType::Deposit => "deposit",
            TransactionType::Withdrawal => "withdrawal",
            TransactionType::Transfer => "transfer",
        }
    }

    /// The name of the kind as an owned text.
    pub fn to_string(&self) -> (s: String)
        ensures
            s@ == self.spec_as_str(),
    {
        String::from_str(self.as_str())
    }

    /// Reading the lower-case name of a kind gives that kind back.
    pub proof fn law_name_round_trips(kind: TransactionType, given: Seq<char>)
        ensures
            Self::spec_from_lowercase(kind.spec_as_str(), given) == Ok::<
                TransactionType,
                DomainErrorView,
            >(kind),
    {
        // The three names differ in length, so none is read as another.
        reveal_strlit("deposit");
        reveal_strlit("withdrawal");
        reveal_strlit("transfer");
        assert("withdrawal"@.len() == 10);
        assert("transfer"@.len() == 8);
    }
}

} // verus!
