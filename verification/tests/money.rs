use transaction_processor::domain::{DomainError, Money};

#[test]
fn money_new_accepts_zero_and_positive_amounts() {
    assert_eq!(Money::new(0).unwrap().value(), 0);
    assert_eq!(Money::new(1000).unwrap().value(), 1000);
    assert_eq!(Money::new(i64::MAX).unwrap().value(), i64::MAX);
}

#[test]
fn money_new_rejects_negative_amounts() {
    assert!(matches!(Money::new(-1), Err(DomainError::InvalidAmount(-1))));
    assert!(matches!(
        Money::new(i64::MIN),
        Err(DomainError::InvalidAmount(i64::MIN))
    ));
}

#[test]
fn money_zero_is_zero() {
    assert_eq!(Money::zero().value(), 0);
    assert_eq!(Money::zero(), Money::new(0).unwrap());
}

#[test]
fn money_add_is_the_sum() {
    let a = Money::new(1000).unwrap();
    let b = Money::new(500).unwrap();
    assert_eq!(a.add(&b).unwrap(), Money::new(1500).unwrap());
    assert_eq!(b.add(&a).unwrap().value(), 1500);
    assert_eq!(a.add(&Money::zero()).unwrap(), a);
    // the operands are unchanged
    assert_eq!(a.value(), 1000);
    assert_eq!(b.value(), 500);
}

#[test]
fn money_add_reaches_the_largest_amount() {
    let a = Money::new(i64::MAX - 1).unwrap();
    let b = Money::new(1).unwrap();
    assert_eq!(a.add(&b).unwrap().value(), i64::MAX);
}

#[test]
fn money_add_fails_on_overflow() {
    let a = Money::new(i64::MAX).unwrap();
    let b = Money::new(1).unwrap();
    match a.add(&b) {
        Err(DomainError::ValidationError(why)) => assert_eq!(why, "Amount overflow"),
        other => panic!("expected an overflow error, got {:?}", other),
    }
    assert!(a.add(&a).is_err());
}

#[test]
fn money_subtract_is_the_difference() {
    let a = Money::new(1000).unwrap();
    let b = Money::new(300).unwrap();
    assert_eq!(a.subtract(&b).unwrap(), Money::new(700).unwrap());
    assert_eq!(a.subtract(&a).unwrap(), Money::zero());
    assert_eq!(a.subtract(&Money::zero()).unwrap(), a);
}

#[test]
fn money_subtract_fails_when_the_balance_is_too_small() {
    let a = Money::new(100).unwrap();
    let b = Money::new(500).unwrap();
    assert!(matches!(
        a.subtract(&b),
        Err(DomainError::InsufficientBalance {
            required: 500,
            available: 100
        })
    ));
    assert!(matches!(
        Money::zero().subtract(&Money::new(1).unwrap()),
        Err(DomainError::InsufficientBalance {
            required: 1,
            available: 0
        })
    ));
}

#[test]
fn money_orders_by_amount() {
    assert!(Money::new(1).unwrap() < Money::new(2).unwrap());
    assert!(Money::new(2).unwrap() >= Money::new(2).unwrap());
}

#[test]
fn money_renders_in_decimal() {
    assert_eq!(Money::new(0).unwrap().to_string(), "0");
    assert_eq!(Money::new(1234567890).unwrap().to_string(), "1234567890");
    assert_eq!(
        Money::new(i64::MAX).unwrap().to_string(),
        "9223372036854775807"
    );
}

#[test]
fn money_of_the_same_value_is_the_same_amount() {
    let two = Money::new(2).unwrap();
    let three = Money::new(3).unwrap();
    assert_eq!(two.add(&three).unwrap(), Money::new(5).unwrap());
    assert_eq!(Money::new(5).unwrap().subtract(&three).unwrap(), two);
    assert_ne!(two, three);
}
