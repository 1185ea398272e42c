//! The entities of the ledger.

pub mod account;
pub mod account_balance;
pub mod ledger_event;
pub mod transaction;

pub use account::Account;
pub use account_balance::AccountBalance;
pub use ledger_event::{EventType, LedgerEvent};
pub use transaction::Transaction;
