//! A non-negative amount of money with arithmetic that cannot wrap around.

use crate::domain::errors::{outcome, DomainError, DomainErrorView, DomainResult};
use crate::text::{decimal, decimal_string};
use vstd::prelude::*;

verus! {

/// A non-negative amount of money, counted in the smallest unit of the
/// currency. Every operation returns a new amount; none changes its operands.
#[derive(Debug, Clone, Copy, PartialEq, Eq, Structural, PartialOrd, Ord)]
pub struct Money(i64);

impl View for Money {
    type V = int;

    /// The amount as a mathematical integer.
    closed spec fn view(&self) -> int {
        self.0 as int
    }
}

impl Money {
    #[verifier::type_invariant]
    spec fn is_non_negative(&self) -> bool {
        self.0 >= 0
    }

    /// What constructing an amount gives: the amount itself, unless it is
    /// negative.
    pub open spec fn spec_new(amount: int) -> Result<int, DomainErrorView> {
        if amount < 0 {
            Err(DomainErrorView::InvalidAmount(amount))
        } else {
            Ok(amount)
        }
    }

    /// What adding two amounts gives: their sum, unless it exceeds the
    /// largest amount that can be held.
    pub open spec fn spec_add(a: int, b: int) -> Result<int, DomainErrorView> {
        if a + b <= i64::MAX {
            Ok(a + b)
        } else {
            Err(DomainErrorView::ValidationError("Amount overflow"@))
        }
    }

    /// What taking `b` away from `a` gives: the difference, unless `a` is
    /// the smaller one.
    pub open spec fn spec_subtract(a: int, b: int) -> Result<int, DomainErrorView> {
        if a < b {
            Err(DomainErrorView::InsufficientBalance { required: b, available: a })
        } else {
            Ok(a - b)
        }
    }

    /// An amount of money; a negative amount is rejected.
    pub fn new(amount: i64) -> (r: DomainResult<Money>)
        ensures
            outcome(r) == Self::spec_new(amount as int),
    {
        if amount < 0 {
            return Err(DomainError::InvalidAmount(amount));
        }
        Ok(Money(amount))
    }

    /// No money at all.
    pub fn zero() -> (r: Money)
        ensures
            r@ == 0,
    {
        Money(0)
    }

    /// The amount held.
    pub fn value(&self) -> (r: i64)
        ensures
            r == self@,
            r >= 0,
    {
        proof {
            use_type_invariant(self);
        }
        self.0
    }

    /// The sum of two amounts; fails when the sum cannot be held.
    pub fn add(&self, other: &Money) -> (r: DomainResult<Money>)
        ensures
            outcome(r) == Self::spec_add(self@, other@),
    {
        proof {
            use_type_invariant(self);
            use_type_invariant(other);
        }
        match self.0.checked_add(other.0) {
            Some(sum) => Ok(Money(sum)),
            None => Err(DomainError::ValidationError(String::from_str("Amount overflow"))),
        }
    }

    /// The difference of two amounts; fails when `other` is the larger one,
    /// so that the result is never negative.
    pub fn subtract(&self, other: &Money) -> (r: DomainResult<Money>)
        ensures
            outcome(r) == Self::spec_subtract(self@, other@),
    {
        proof {
            use_type_invariant(self);
            use_type_invariant(other);
        }
        if self.0 < other.0 {
            return Err(
                DomainError::InsufficientBalance { required: other.0, available: self.0 },
            );
        }
        Ok(Money(self.0 - other.0))
    }

    /// The amount in decimal digits.
    pub fn to_string(&self) -> (s: String)
        ensures
            s@ == decimal(self@),
    {
        decimal_string(self.0)
    }

    /// Two amounts of the same value are the same amount: what holds of
    /// one holds of the other.
    pub proof fn law_equal_amounts_are_equal(a: Money, b: Money)
        requires
            a@ == b@,
        ensures
            a == b,
    {
    }

    /// Adding the amounts made of `a` and of `b` gives the amount made of
    /// `a + b`, as long as the sum can be held; when it cannot, adding fails.
    pub proof fn law_add_of_new(a: i64, b: i64)
        requires
            a >= 0,
            b >= 0,
        ensures
            Self::spec_new(a as int) is Ok,
            Self::spec_new(b as int) is Ok,
            a + b <= i64::MAX ==> Self::spec_add(
                Self::spec_new(a as int)->Ok_0,
                Self::spec_new(b as int)->Ok_0,
            ) == Self::spec_new(a + b),
            a + b > i64::MAX ==> Self::spec_add(
                Self::spec_new(a as int)->Ok_0,
                Self::spec_new(b as int)->Ok_0,
            ) is Err,
    {
    }

    /// Taking the amount made of `b` from the amount made of `a` gives the
    /// amount made of `a - b` where `a` is not the smaller one; where it is,
    /// subtracting fails and reports `b` as required and `a` as available.
    pub proof fn law_subtract_of_new(a: i64, b: i64)
        requires
            a >= 0,
            b >= 0,
        ensures
            Self::spec_new(a as int) is Ok,
            Self::spec_new(b as int) is Ok,
            a >= b ==> Self::spec_subtract(
                Self::spec_new(a as int)->Ok_0,
                Self::spec_new(b as int)->Ok_0,
            ) == Self::spec_new(a - b),
            a < b ==> Self::spec_subtract(
                Self::spec_new(a as int)->Ok_0,
                Self::spec_new(b as int)->Ok_0,
            ) == Err::<int, DomainErrorView>(
                DomainErrorView::InsufficientBalance { required: b as int, available: a as int },
            ),
    {
    }
}

} // verus!
