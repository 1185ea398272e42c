use transaction_processor::domain::{DomainError, EventType, LedgerEvent, Money};

#[test]
fn ledger_event_test_create_debit_event() {
    let amount = Money::new(1000).unwrap();
    let event = LedgerEvent::new_debit(1, amount, Some("Test debit".to_string()));

    assert_eq!(event.account_id, 1);
    assert_eq!(event.event_type, EventType::Debit);
    assert_eq!(event.amount.value(), 1000);
}

#[test]
fn test_create_credit_event() {
    let amount = Money::new(500).unwrap();
    let event = LedgerEvent::new_credit(2, amount, Some("Test credit".to_string()));

    assert_eq!(event.account_id, 2);
    assert_eq!(event.event_type, EventType::Credit);
    assert_eq!(event.amount.value(), 500);
}

#[test]
fn test_event_type_from_string() {
    assert_eq!(EventType::from_string("DEBIT").unwrap(), EventType::Debit);
    assert_eq!(EventType::from_string("CREDIT").unwrap(), EventType::Credit);
    assert!(EventType::from_string("INVALID").is_err());
}

#[test]
fn test_event_type_to_string() {
    assert_eq!(EventType::Debit.to_string(), "DEBIT");
    assert_eq!(EventType::Credit.to_string(), "CREDIT");
}

#[test]
fn ledger_event_test_validate() {
    let amount = Money::new(1000).unwrap();
    let event = LedgerEvent::new_debit(1, amount, None);
    assert!(event.validate().is_ok());
}

#[test]
fn event_type_ignores_case() {
    assert_eq!(EventType::from_string("debit").unwrap(), EventType::Debit);
    assert_eq!(EventType::from_string("Credit").unwrap(), EventType::Credit);
    assert_eq!(EventType::from_string("cReDiT").unwrap(), EventType::Credit);
}

#[test]
fn event_type_rejects_other_names() {
    for name in ["", "INVALID", "DEBITS", " DEBIT", "deposit"] {
        match EventType::from_string(name) {
            Err(DomainError::ValidationError(why)) => {
                assert_eq!(why, format!("Invalid event type: {}", name))
            }
            other => panic!("expected a rejection, got {:?}", other),
        }
    }
}

#[test]
fn event_type_from_uppercase_reports_the_text_as_given() {
    assert_eq!(
        EventType::from_uppercase("DEBIT", "debit").unwrap(),
        EventType::Debit
    );
    assert_eq!(
        EventType::from_uppercase("CREDIT", "credit").unwrap(),
        EventType::Credit
    );
    match EventType::from_uppercase("REFUND", "refund") {
        Err(DomainError::ValidationError(why)) => assert_eq!(why, "Invalid event type: refund"),
        other => panic!("expected a rejection, got {:?}", other),
    }
    // the name is matched as given: nothing folds its case here
    assert!(EventType::from_uppercase("debit", "debit").is_err());
}

#[test]
fn event_type_names_round_trip() {
    for kind in [EventType::Debit, EventType::Credit] {
        assert_eq!(EventType::from_string(&kind.to_string()).unwrap(), kind);
    }
}

#[test]
fn ledger_event_new_is_not_stored_yet() {
    let amount = Money::new(250).unwrap();
    let event = LedgerEvent::new(7, EventType::Credit, amount, Some("Salary".to_string()));
    assert_eq!(event.id, None);
    assert_eq!(event.account_id, 7);
    assert_eq!(event.event_type, EventType::Credit);
    assert_eq!(event.amount, amount);
    assert_eq!(event.description.as_deref(), Some("Salary"));
    assert!(event.created_at.is_none());

    let bare = LedgerEvent::new(8, EventType::Debit, amount, None);
    assert_eq!(bare.description, None);
    assert_eq!(bare.event_type, EventType::Debit);
}

#[test]
fn ledger_event_validate_rejects_an_amount_of_zero() {
    let event = LedgerEvent::new_credit(1, Money::zero(), None);
    match event.validate() {
        Err(DomainError::ValidationError(why)) => assert_eq!(why, "Amount must be positive"),
        other => panic!("expected a rejection, got {:?}", other),
    }
    let smallest = LedgerEvent::new_credit(1, Money::new(1).unwrap(), None);
    assert!(smallest.validate().is_ok());
}

#[test]
fn ledger_event_clone_keeps_every_field() {
    let stamp = chrono::NaiveDate::from_ymd_opt(2024, 3, 9)
        .unwrap()
        .and_hms_opt(12, 30, 0)
        .unwrap();
    let mut event = LedgerEvent::new_debit(3, Money::new(42).unwrap(), Some("Fee".to_string()));
    event.id = Some(11);
    event.created_at = Some(stamp);
    let copy = event.clone();
    assert_eq!(copy.id, Some(11));
    assert_eq!(copy.account_id, 3);
    assert_eq!(copy.event_type, EventType::Debit);
    assert_eq!(copy.amount.value(), 42);
    assert_eq!(copy.description.as_deref(), Some("Fee"));
    assert_eq!(copy.created_at, Some(stamp));
}
