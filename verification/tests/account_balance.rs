use transaction_processor::domain::{AccountBalance, Money};

#[test]
fn test_create_account_balance() {
    let balance = Money::new(5000).unwrap();
    let account_balance = AccountBalance::new(1, balance);

    assert_eq!(account_balance.account_id, 1);
    assert_eq!(account_balance.balance.value(), 5000);
    assert!(account_balance.id.is_none());
    assert!(account_balance.snapshot_at.is_none());
}
