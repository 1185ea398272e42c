//! Immutable, self-validating wrappers around primitive values.

pub mod account_number;
pub mod money;
pub mod transaction_type;

pub use account_number::AccountNumber;
pub use money::Money;
pub use transaction_type::TransactionType;
