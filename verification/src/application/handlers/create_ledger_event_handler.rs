//! Appending an event to the ledger.

use crate::application::commands::CreateLedgerEventCommand;
use crate::domain::entities::ledger_event::LedgerEventView;
use crate::domain::entities::{EventType, LedgerEvent};
use crate::domain::errors::{outcome, DomainErrorView, DomainResult};
use crate::domain::repositories::LedgerEventRepository;
use crate::domain::value_objects::Money;
use crate::text::{optional_text, uppercase};
use chrono::NaiveDateTime;
use std::sync::Arc;
use vstd::prelude::*;

verus! {

/// Appends events to the ledger. Whether the account exists is left to the
/// store: the handler does not ask.
pub struct CreateLedgerEventHandler<R: LedgerEventRepository> {
    event_repository: Arc<R>,
}

impl<R: LedgerEventRepository> CreateLedgerEventHandler<R> {
    /// The store of events that the handler works on.
    pub closed spec fn repository(&self) -> Arc<R> {
        self.event_repository
    }

    /// The event to append, given what the direction was read as: the error
    /// of a direction that could not be read, of a negative amount, of an
    /// amount of zero, in this order; else a new event.
    pub open spec fn spec_new_event(
        account_id: i32,
        event_type: Result<EventType, DomainErrorView>,
        amount: i64,
        description: Option<Seq<char>>,
    ) -> Result<LedgerEventView, DomainErrorView> {
        match event_type {
            Err(error) => Err(error),
            Ok(event_type) => if amount < 0 {
                Err(DomainErrorView::InvalidAmount(amount as int))
            } else if amount == 0 {
                Err(DomainErrorView::ValidationError("Amount must be positive"@))
            } else {
                Ok(
                    LedgerEventView {
                        id: None,
                        account_id,
                        event_type,
                        amount: amount as int,
                        description,
                        created_at: None::<NaiveDateTime>,
                    },
                )
            },
        }
    }

    /// The event that a command asks for, or the reason why it asks for
    /// none.
    pub open spec fn spec_event_of(command: CreateLedgerEventCommand) -> Result<
        LedgerEventView,
        DomainErrorView,
    > {
        Self::spec_new_event(
            command.account_id,
            EventType::spec_from_uppercase(uppercase(command.event_type@), command.event_type@),
            command.amount,
            optional_text(command.description),
        )
    }

    /// What the handler may return for a command on a store: the error of a
    /// command that asks for no valid event, whatever the store holds; else
    /// what the store returns when it saves that event.
    pub open spec fn handled(
        repository: &R,
        command: CreateLedgerEventCommand,
        r: DomainResult<LedgerEvent>,
    ) -> bool {
        match Self::spec_event_of(command) {
            Err(error) => outcome(r) == Err::<LedgerEventView, DomainErrorView>(error),
            Ok(draft) => exists|event: LedgerEvent|
                event@ == draft && #[trigger] call_ensures(R::save, (repository, &event), r),
        }
    }

    /// A handler on the store given.
    pub fn new(event_repository: Arc<R>) -> (r: Self)
        ensures
            r.repository() == event_repository,
    {
        CreateLedgerEventHandler { event_repository }
    }

    /// Builds and validates the event to append, given what the direction
    /// was read as.
    pub fn new_event(
        account_id: i32,
        event_type: DomainResult<EventType>,
        amount: i64,
        description: Option<String>,
    ) -> (r: DomainResult<LedgerEvent>)
        ensures
            outcome(r) == Self::spec_new_event(
                account_id,
                outcome(event_type),
                amount,
                optional_text(description),
            ),
            r matches Ok(event) ==> event.is_valid(),
    {
        let event_type = event_type?;
        let amount = Money::new(amount)?;
        let event = LedgerEvent::new(account_id, event_type, amount, description);
        event.validate()?;
        Ok(event)
    }

    /// Appends the event that the command asks for.
    pub fn handle(&self, command: CreateLedgerEventCommand) -> (r: DomainResult<LedgerEvent>)
        ensures
            Self::handled(&*self.repository(), command, r),
    {
        let event_type = EventType::from_string(command.event_type.as_str());
        let event = Self::new_event(
            command.account_id,
            event_type,
            command.amount,
            command.description,
        )?;
        self.event_repository.save(&event)
    }

    /// An amount of zero or less gives no event, whatever the direction and
    /// the description: such a command fails, and the store is handed
    /// nothing of it.
    pub proof fn law_amount_must_be_positive(
        account_id: i32,
        event_type: Result<EventType, DomainErrorView>,
        amount: i64,
        description: Option<Seq<char>>,
    )
        requires
            amount <= 0,
        ensures
            Self::spec_new_event(account_id, event_type, amount, description) is Err,
    {
    }
}

} // verus!
