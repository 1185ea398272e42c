use transaction_processor::domain::services::calculate_balance;
use transaction_processor::domain::{DomainError, LedgerEvent, Money};

fn credit(amount: i64) -> LedgerEvent {
    LedgerEvent::new_credit(1, Money::new(amount).unwrap(), None)
}

fn debit(amount: i64) -> LedgerEvent {
    LedgerEvent::new_debit(1, Money::new(amount).unwrap(), None)
}

#[test]
fn balance_of_credit_debit_credit() {
    let events = vec![credit(1000), debit(300), credit(200)];
    assert_eq!(calculate_balance(&events).unwrap(), 900);
}

#[test]
fn balance_of_no_events_is_zero() {
    assert_eq!(calculate_balance(&Vec::new()).unwrap(), 0);
}

#[test]
fn balance_is_credits_less_debits() {
    let events = vec![
        credit(5),
        debit(7),
        credit(11),
        debit(13),
        credit(17),
        debit(19),
    ];
    let credits = 5 + 11 + 17;
    let debits = 7 + 13 + 19;
    assert_eq!(calculate_balance(&events).unwrap(), credits - debits);
}

#[test]
fn balance_may_be_negative() {
    let events = vec![credit(100), debit(500)];
    assert_eq!(calculate_balance(&events).unwrap(), -400);
    assert_eq!(calculate_balance(&vec![debit(1)]).unwrap(), -1);
}

#[test]
fn balance_is_the_same_each_time_and_in_any_order() {
    let events = vec![credit(1000), debit(300), credit(200)];
    let first = calculate_balance(&events).unwrap();
    let second = calculate_balance(&events).unwrap();
    assert_eq!(first, second);

    let reordered = vec![debit(300), credit(200), credit(1000)];
    assert_eq!(calculate_balance(&reordered).unwrap(), first);
}

#[test]
fn balance_of_a_history_is_the_sum_of_its_parts() {
    let older = vec![credit(1000), debit(300)];
    let newer = vec![credit(200), debit(50)];
    let mut whole = older.clone();
    whole.extend(newer.iter().cloned());
    assert_eq!(
        calculate_balance(&whole).unwrap(),
        calculate_balance(&older).unwrap() + calculate_balance(&newer).unwrap()
    );
}

#[test]
fn balance_counts_events_of_zero_as_nothing() {
    let events = vec![
        LedgerEvent::new_credit(1, Money::zero(), None),
        credit(10),
        LedgerEvent::new_debit(1, Money::zero(), None),
    ];
    assert_eq!(calculate_balance(&events).unwrap(), 10);
}

#[test]
fn balance_reaches_both_ends_of_the_range() {
    assert_eq!(calculate_balance(&vec![credit(i64::MAX)]).unwrap(), i64::MAX);
    assert_eq!(
        calculate_balance(&vec![debit(i64::MAX), debit(1)]).unwrap(),
        i64::MIN
    );
}

#[test]
fn balance_survives_a_sum_that_leaves_the_range_on_the_way() {
    let events = vec![credit(i64::MAX), credit(i64::MAX), debit(i64::MAX)];
    assert_eq!(calculate_balance(&events).unwrap(), i64::MAX);
}

#[test]
fn balance_outside_the_range_is_an_error() {
    let above = vec![credit(i64::MAX), credit(1)];
    match calculate_balance(&above) {
        Err(DomainError::ValidationError(why)) => assert_eq!(why, "Balance overflow"),
        other => panic!("expected an overflow, got {:?}", other),
    }
    let below = vec![debit(i64::MAX), debit(2)];
    match calculate_balance(&below) {
        Err(DomainError::ValidationError(why)) => assert_eq!(why, "Balance overflow"),
        other => panic!("expected an overflow, got {:?}", other),
    }
}
