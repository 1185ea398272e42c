use transaction_processor::domain::{Money, Transaction, TransactionType};

#[test]
fn test_create_deposit() {
    let amount = Money::new(1000).unwrap();
    let transaction = Transaction::new_deposit(1, amount, Some("Initial deposit".to_string()));

    assert_eq!(transaction.to_account_id, Some(1));
    assert_eq!(transaction.from_account_id, None);
    assert_eq!(transaction.amount.value(), 1000);
    assert_eq!(transaction.transaction_type, TransactionType::Deposit);
}

#[test]
fn test_create_withdrawal() {
    let amount = Money::new(500).unwrap();
    let transaction = Transaction::new_withdrawal(1, amount, Some("ATM withdrawal".to_string()));

    assert_eq!(transaction.from_account_id, Some(1));
    assert_eq!(transaction.to_account_id, None);
    assert_eq!(transaction.amount.value(), 500);
    assert_eq!(transaction.transaction_type, TransactionType::Withdrawal);
}

#[test]
fn test_create_transfer() {
    let amount = Money::new(750).unwrap();
    let transaction = Transaction::new_transfer(1, 2, amount, Some("Payment".to_string()));

    assert_eq!(transaction.from_account_id, Some(1));
    assert_eq!(transaction.to_account_id, Some(2));
    assert_eq!(transaction.amount.value(), 750);
    assert_eq!(transaction.transaction_type, TransactionType::Transfer);
}

#[test]
fn transaction_new_is_not_stored_yet() {
    let amount = Money::new(10).unwrap();
    let transaction = Transaction::new(
        Some(4),
        Some(5),
        amount,
        TransactionType::Transfer,
        Some("Rent".to_string()),
    );
    assert_eq!(transaction.id, None);
    assert_eq!(transaction.from_account_id, Some(4));
    assert_eq!(transaction.to_account_id, Some(5));
    assert_eq!(transaction.amount, amount);
    assert_eq!(transaction.transaction_type, TransactionType::Transfer);
    assert_eq!(transaction.description.as_deref(), Some("Rent"));
    assert!(transaction.created_at.is_none());
    let copy = transaction.clone();
    assert_eq!(copy.description.as_deref(), Some("Rent"));
    assert_eq!(copy.amount.value(), 10);
}
