use transaction_processor::domain::DomainError;

#[test]
fn error_messages() {
    assert_eq!(
        DomainError::AccountNotFound("Account with id 7 not found".to_string()).to_string(),
        "Account not found: Account with id 7 not found"
    );
    assert_eq!(
        DomainError::TransactionNotFound(42).to_string(),
        "Transaction not found: 42"
    );
    assert_eq!(
        DomainError::TransactionNotFound(-3).to_string(),
        "Transaction not found: -3"
    );
    assert_eq!(
        DomainError::InsufficientBalance {
            required: 500,
            available: 100
        }
        .to_string(),
        "Insufficient balance: required 500, available 100"
    );
    assert_eq!(
        DomainError::InvalidAmount(-5).to_string(),
        "Invalid amount: -5"
    );
    assert_eq!(
        DomainError::InvalidAccountNumber("Account number too long".to_string()).to_string(),
        "Invalid account number: Account number too long"
    );
    assert_eq!(
        DomainError::InvalidTransactionType("refund".to_string()).to_string(),
        "Invalid transaction type: refund"
    );
    assert_eq!(
        DomainError::DuplicateAccountNumber("ACC001".to_string()).to_string(),
        "Duplicate account number: ACC001"
    );
    assert_eq!(
        DomainError::RepositoryError("connection refused".to_string()).to_string(),
        "Repository error: connection refused"
    );
    assert_eq!(
        DomainError::ValidationError("Amount must be positive".to_string()).to_string(),
        "Validation error: Amount must be positive"
    );
}

#[test]
fn error_messages_render_the_ends_of_the_range() {
    assert_eq!(
        DomainError::InvalidAmount(i64::MIN).to_string(),
        "Invalid amount: -9223372036854775808"
    );
    assert_eq!(
        DomainError::InsufficientBalance {
            required: i64::MAX,
            available: 0
        }
        .to_string(),
        "Insufficient balance: required 9223372036854775807, available 0"
    );
    assert_eq!(
        DomainError::TransactionNotFound(i32::MIN).to_string(),
        "Transaction not found: -2147483648"
    );
}
