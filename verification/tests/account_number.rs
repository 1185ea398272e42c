use std::collections::HashSet;
use transaction_processor::domain::{AccountNumber, DomainError};

#[test]
fn account_number_round_trips() {
    let number = AccountNumber::new("ACC001".to_string()).unwrap();
    assert_eq!(number.value(), "ACC001");
    assert_eq!(number.to_string(), "ACC001");
}

#[test]
fn account_number_rejects_the_empty_text() {
    match AccountNumber::new(String::new()) {
        Err(DomainError::InvalidAccountNumber(why)) => {
            assert_eq!(why, "Account number cannot be empty")
        }
        other => panic!("expected a rejection, got {:?}", other),
    }
}

#[test]
fn account_number_accepts_up_to_fifty_characters() {
    let one = "A".to_string();
    assert_eq!(AccountNumber::new(one).unwrap().value(), "A");
    let fifty = "A".repeat(50);
    assert_eq!(AccountNumber::new(fifty.clone()).unwrap().value(), fifty);
}

#[test]
fn account_number_rejects_more_than_fifty_characters() {
    for length in [51usize, 52, 100, 1000] {
        match AccountNumber::new("A".repeat(length)) {
            Err(DomainError::InvalidAccountNumber(why)) => {
                assert_eq!(why, "Account number too long")
            }
            other => panic!("expected a rejection, got {:?}", other),
        }
    }
}

#[test]
fn account_number_counts_characters() {
    let fifty = "é".repeat(50);
    assert_eq!(AccountNumber::new(fifty.clone()).unwrap().value(), fifty);
    assert!(AccountNumber::new("é".repeat(51)).is_err());
}

#[test]
fn account_number_equals_by_value() {
    let a = AccountNumber::new("ACC001".to_string()).unwrap();
    let b = AccountNumber::new("ACC001".to_string()).unwrap();
    let c = AccountNumber::new("ACC002".to_string()).unwrap();
    assert_eq!(a, b);
    assert_ne!(a, c);
    assert_eq!(a.clone(), a);
    let mut seen = HashSet::new();
    assert!(seen.insert(a));
    assert!(!seen.insert(b));
    assert!(seen.insert(c));
}
