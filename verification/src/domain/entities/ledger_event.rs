//! A ledger event: one debit or credit of an amount on one account.

use crate::domain::errors::{outcome, DomainError, DomainErrorView, DomainResult};
use crate::domain::value_objects::Money;
use crate::text::{is_text, optional_text, to_uppercase, uppercase};
use chrono::NaiveDateTime;
use vstd::prelude::*;

verus! {

/// The direction of a ledger event.
#[derive(Debug, Clone, Copy, PartialEq, Eq, Structural)]
pub enum EventType {
    /// Takes the amount from the account.
    Debit,
    /// Gives the amount to the account.
    Credit,
}

impl View for EventType {
    type V = EventType;

    open spec fn view(&self) -> EventType {
        *self
    }
}

impl EventType {
    /// The direction that an upper-case name stands for; `given` is the
    /// text that the error reports when the name stands for none.
    pub open spec fn spec_from_uppercase(upper: Seq<char>, given: Seq<char>) -> Result<
        EventType,
        DomainErrorView,
    > {
        if upper == "DEBIT"@ {
            Ok(EventType::Debit)
        } else if upper == "CREDIT"@ {
            Ok(EventType::Credit)
        } else {
            Err(DomainErrorView::ValidationError("Invalid event type: "@ + given))
        }
    }

    /// The name of a direction, in upper case.
    pub open spec fn spec_name(self) -> Seq<char> {
        match self {
            EventType::Debit => "DEBIT"@,
            EventType::Credit => "CREDIT"@,
        }
    }

    /// Reads a direction from its upper-case name.
    pub fn from_uppercase(upper: &str, given: &str) -> (r: DomainResult<EventType>)
        ensures
            outcome(r) == Self::spec_from_uppercase(upper@, given@),
    {
        if is_text(upper, "DEBIT") {
            Ok(EventType::Debit)
        } else if is_text(upper, "CREDIT") {
            Ok(EventType::Credit)
        } else {
            Err(
                DomainError::ValidationError(
                    String::from_str("Invalid event type: ").concat(given),
                ),
            )
        }
    }

    /// Reads a direction from its name, whatever the case of its letters.
    pub fn from_string(s: &str) -> (r: DomainResult<EventType>)
        ensures
            outcome(r) == Self::spec_from_uppercase(uppercase(s@), s@),
    {
        let upper = to_uppercase(s);
        Self::from_uppercase(upper.as_str(), s)
    }

    /// The name of the direction, in upper case.
    pub fn to_string(&self) -> (s: String)
        ensures
            s@ == self.spec_name(),
    {
        match self {
            EventType::Debit => String::from_str("DEBIT"),
            EventType::Credit => String::from_str("CREDIT"),
        }
    }

    /// Reading the upper-case name of a direction gives that direction back.
    pub proof fn law_name_round_trips(kind: EventType, given: Seq<char>)
        ensures
            Self::spec_from_uppercase(kind.spec_name(), given) == Ok::<
                EventType,
                DomainErrorView,
            >(kind),
    {
        // The two names differ in length, so neither is read as the other.
        reveal_strlit("DEBIT");
        reveal_strlit("CREDIT");
        assert("CREDIT"@.len() == 6);
    }
}

/// One immutable entry of the ledger.
#[derive(Debug)]
pub struct LedgerEvent {
    /// Given by the store when the event is saved.
    pub id: Option<i32>,
    /// The account that the event belongs to.
    pub account_id: i32,
    pub event_type: EventType,
    pub amount: Money,
    pub description: Option<String>,
    pub created_at: Option<NaiveDateTime>,
}

/// The mathematical model of a [`LedgerEvent`].
pub struct LedgerEventView {
    pub id: Option<i32>,
    pub account_id: i32,
    pub event_type: EventType,
    pub amount: int,
    pub description: Option<Seq<char>>,
    pub created_at: Option<NaiveDateTime>,
}

impl View for LedgerEvent {
    type V = LedgerEventView;

    open spec fn view(&self) -> LedgerEventView {
        LedgerEventView {
            id: self.id,
            account_id: self.account_id,
            event_type: self.event_type,
            amount: self.amount@,
            description: optional_text(self.description),
            created_at: self.created_at,
        }
    }
}

impl LedgerEvent {
    /// Whether the event may be appended to the ledger: its amount is
    /// positive.
    pub open spec fn is_valid(&self) -> bool {
        self.amount@ > 0
    }

    /// The amount with the sign of the direction: what the event adds to the
    /// balance of its account.
    pub open spec fn signed_amount(&self) -> int {
        match self.event_type {
            EventType::Credit => self.amount@,
            EventType::Debit => -self.amount@,
        }
    }

    /// An event that has not been stored yet: without identifier and without
    /// time stamp.
    pub fn new(
        account_id: i32,
        event_type: EventType,
        amount: Money,
        description: Option<String>,
    ) -> (r: LedgerEvent)
        ensures
            r == (LedgerEvent {
                id: None,
                account_id,
                event_type,
                amount,
                description,
                created_at: None,
            }),
    {
        LedgerEvent { id: None, account_id, event_type, amount, description, created_at: None }
    }

    /// A new debit event.
    pub fn new_debit(account_id: i32, amount: Money, description: Option<String>) -> (r:
        LedgerEvent)
        ensures
            r == (LedgerEvent {
                id: None,
                account_id,
                event_type: EventType::Debit,
                amount,
                description,
                created_at: None,
            }),
    {
        Self::new(account_id, EventType::Debit, amount, description)
    }

    /// A new credit event.
    pub fn new_credit(account_id: i32, amount: Money, description: Option<String>) -> (r:
        LedgerEvent)
        ensures
            r == (LedgerEvent {
                id: None,
                account_id,
                event_type: EventType::Credit,
                amount,
                description,
                created_at: None,
            }),
    {
        Self::new(account_id, EventType::Credit, amount, description)
    }

    /// Checks that the event may be appended to the ledger.
    pub fn validate(&self) -> (r: DomainResult<()>)
        ensures
            self.is_valid() ==> r is Ok,
            !self.is_valid() ==> r is Err && r->Err_0@ == DomainErrorView::ValidationError(
                "Amount must be positive"@,
            ),
    {
        if self.amount.value() <= 0 {
            return Err(DomainError::ValidationError(String::from_str("Amount must be positive")));
        }
        Ok(())
    }
}

impl Clone for LedgerEvent {
    fn clone(&self) -> (r: Self)
        ensures
            r@ == self@,
    {
        let description = match &self.description {
            Some(text) => Some(text.clone()),
            None => None,
        };
        LedgerEvent {
            id: self.id,
            account_id: self.account_id,
            event_type: self.event_type,
            amount: self.amount,
            description,
            created_at: self.created_at,
        }
    }
}

} // verus!
