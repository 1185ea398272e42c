//! The domain layer: value objects, entities, errors and the contracts of
//! the persistence collaborators.

pub mod entities;
pub mod errors;
pub mod repositories;
pub mod services;
pub mod time;
pub mod value_objects;

pub use entities::{Account, AccountBalance, EventType, LedgerEvent, Transaction};
pub use errors::{DomainError, DomainErrorView, DomainResult};
pub use repositories::{
    AccountBalanceRepository, AccountRepository, LedgerEventRepository, TransactionRepository,
};
pub use value_objects::{AccountNumber, Money, TransactionType};
