use transaction_processor::domain::{DomainError, TransactionType};

#[test]
fn transaction_type_reads_its_names() {
    assert_eq!(
        TransactionType::from_string("deposit").unwrap(),
        TransactionType::Deposit
    );
    assert_eq!(
        TransactionType::from_string("withdrawal").unwrap(),
        TransactionType::Withdrawal
    );
    assert_eq!(
        TransactionType::from_string("transfer").unwrap(),
        TransactionType::Transfer
    );
}

#[test]
fn transaction_type_ignores_case() {
    assert_eq!(
        TransactionType::from_string("DEPOSIT").unwrap(),
        TransactionType::Deposit
    );
    assert_eq!(
        TransactionType::from_string("WithDrawal").unwrap(),
        TransactionType::Withdrawal
    );
    assert_eq!(
        TransactionType::from_string("tRANSFER").unwrap(),
        TransactionType::Transfer
    );
}

#[test]
fn transaction_type_rejects_other_names() {
    for name in ["", "deposits", " deposit", "refund", "DEBIT"] {
        match TransactionType::from_string(name) {
            Err(DomainError::InvalidTransactionType(what)) => assert_eq!(what, name),
            other => panic!("expected a rejection, got {:?}", other),
        }
    }
}

#[test]
fn transaction_type_from_lowercase_reports_the_text_as_given() {
    assert_eq!(
        TransactionType::from_lowercase("deposit", "DePoSiT").unwrap(),
        TransactionType::Deposit
    );
    match TransactionType::from_lowercase("refund", "ReFund") {
        Err(DomainError::InvalidTransactionType(what)) => assert_eq!(what, "ReFund"),
        other => panic!("expected a rejection, got {:?}", other),
    }
    // the name is matched as given: nothing folds its case here
    assert!(TransactionType::from_lowercase("DEPOSIT", "DEPOSIT").is_err());
}

#[test]
fn transaction_type_names_round_trip() {
    for kind in [
        TransactionType::Deposit,
        TransactionType::Withdrawal,
        TransactionType::Transfer,
    ] {
        assert_eq!(TransactionType::from_string(kind.as_str()).unwrap(), kind);
        assert_eq!(kind.to_string(), kind.as_str());
    }
    assert_eq!(TransactionType::Deposit.as_str(), "deposit");
    assert_eq!(TransactionType::Withdrawal.as_str(), "withdrawal");
    assert_eq!(TransactionType::Transfer.as_str(), "transfer");
}
