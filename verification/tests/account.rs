use transaction_processor::domain::{Account, AccountNumber, DomainError, Money};

#[test]
fn test_create_account() {
    let account_number = AccountNumber::new("ACC001".to_string()).unwrap();
    let balance = Money::new(1000).unwrap();
    let account = Account::new(account_number, "Test Account".to_string());

    assert_eq!(account.account_name, "Test Account");
    assert_eq!(balance.value(), 1000);
}

#[test]
fn account_test_validate() {
    let account_number = AccountNumber::new("ACC001".to_string()).unwrap();
    let account = Account::new(account_number.clone(), "Test Account".to_string());

    assert!(account.validate().is_ok());

    let invalid_account = Account::new(account_number, "".to_string());
    assert!(invalid_account.validate().is_err());
}

#[test]
fn account_new_is_not_stored_yet() {
    let account_number = AccountNumber::new("ACC001".to_string()).unwrap();
    let account = Account::new(account_number.clone(), "Test Account".to_string());
    assert_eq!(account.id, None);
    assert_eq!(account.account_number, account_number);
    assert_eq!(account.account_name, "Test Account");
    assert!(account.created_at.is_none());
    assert!(account.updated_at.is_none());
}

#[test]
fn account_validate_names_the_empty_name() {
    let account_number = AccountNumber::new("ACC001".to_string()).unwrap();
    let account = Account::new(account_number, String::new());
    match account.validate() {
        Err(DomainError::ValidationError(why)) => assert_eq!(why, "Account name cannot be empty"),
        other => panic!("expected a rejection, got {:?}", other),
    }
}

#[test]
fn account_clone_keeps_every_field() {
    let stamp = chrono::NaiveDate::from_ymd_opt(2024, 1, 2)
        .unwrap()
        .and_hms_opt(3, 4, 5)
        .unwrap();
    let account_number = AccountNumber::new("ACC001".to_string()).unwrap();
    let mut account = Account::new(account_number, "Test Account".to_string());
    account.id = Some(5);
    account.created_at = Some(stamp);
    account.updated_at = Some(stamp);
    let copy = account.clone();
    assert_eq!(copy.id, Some(5));
    assert_eq!(copy.account_number.value(), "ACC001");
    assert_eq!(copy.account_name, "Test Account");
    assert_eq!(copy.created_at, Some(stamp));
    assert_eq!(copy.updated_at, Some(stamp));
}
