//! What the ledger asks of its persistence collaborators.
//!
//! The ledger promises what it hands to a collaborator; it assumes nothing
//! of what a collaborator answers.

pub mod account_balance_repository;
pub mod account_repository;
pub mod ledger_event_repository;
pub mod transaction_repository;

pub use account_balance_repository::AccountBalanceRepository;
pub use account_repository::AccountRepository;
pub use ledger_event_repository::LedgerEventRepository;
pub use transaction_repository::TransactionRepository;
