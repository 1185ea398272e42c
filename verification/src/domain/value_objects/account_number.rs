//! The identifier under which an account is known to its holder.

use crate::domain::errors::{outcome, DomainError, DomainErrorView, DomainResult};
use vstd::prelude::*;

verus! {

/// The longest account number, in characters.
pub const MAX_ACCOUNT_NUMBER_LENGTH: usize = 50;

/// An account number: a text of one to fifty characters.
#[derive(Debug, Hash)]
pub struct AccountNumber(String);

impl View for AccountNumber {
    type V = Seq<char>;

    /// The characters of the account number.
    closed spec fn view(&self) -> Seq<char> {
        self.0@
    }
}

impl AccountNumber {
    #[verifier::type_invariant]
    spec fn has_valid_length(&self) -> bool {
        Self::is_valid(self.0@)
    }

    /// Whether a text can serve as an account number.
    pub open spec fn is_valid(text: Seq<char>) -> bool {
        1 <= text.len() <= MAX_ACCOUNT_NUMBER_LENGTH
    }

    /// What constructing an account number gives: the text itself, or the
    /// reason why it is not acceptable.
    pub open spec fn spec_new(text: Seq<char>) -> Result<Seq<char>, DomainErrorView> {
        if text.len() == 0 {
            Err(DomainErrorView::InvalidAccountNumber("Account number cannot be empty"@))
        } else if text.len() > MAX_ACCOUNT_NUMBER_LENGTH {
            Err(DomainErrorView::InvalidAccountNumber("Account number too long"@))
        } else {
            Ok(text)
        }
    }

    /// An account number; an empty text and one of more than fifty
    /// characters are rejected.
    pub fn new(value: String) -> (r: DomainResult<AccountNumber>)
        ensures
            outcome(r) == Self::spec_new(value@),
    {
        if value.as_str().is_empty() {
            return Err(
                DomainError::InvalidAccountNumber(
                    String::from_str("Account number cannot be empty"),
                ),
            );
        }
        if value.as_str().unicode_len() > MAX_ACCOUNT_NUMBER_LENGTH {
            return Err(
                DomainError::InvalidAccountNumber(String::from_str("Account number too long")),
            );
        }
        Ok(AccountNumber(value))
    }

    /// The text of the account number.
    pub fn value(&self) -> (r: &str)
        ensures
            r@ == self@,
            Self::is_valid(r@),
    {
        proof {
            use_type_invariant(self);
        }
        self.0.as_str()
    }

    /// The account number as an owned text.
    pub fn to_string(&self) -> (s: String)
        ensures
            s@ == self@,
    {
        self.0.clone()
    }

    /// Constructing an account number succeeds exactly on the valid texts,
    /// and then keeps the text unchanged.
    pub proof fn law_new_round_trips(text: Seq<char>)
        ensures
            Self::is_valid(text) <==> Self::spec_new(text) is Ok,
            Self::is_valid(text) ==> Self::spec_new(text) == Ok::<Seq<char>, DomainErrorView>(
                text,
            ),
    {
    }
}

impl Clone for AccountNumber {
    fn clone(&self) -> (r: Self)
        ensures
            r@ == self@,
    {
        proof {
            use_type_invariant(self);
        }
        AccountNumber(self.0.clone())
    }
}

impl PartialEq for AccountNumber {
    fn eq(&self, other: &Self) -> (r: bool) {
        self.0 == other.0
    }
}

impl Eq for AccountNumber {

}

impl vstd::std_specs::cmp::PartialEqSpecImpl for AccountNumber {
    open spec fn obeys_eq_spec() -> bool {
        true
    }

    open spec fn eq_spec(&self, other: &Self) -> bool {
        self@ == other@
    }
}

} // verus!
