//! The handlers: each validates its input, asks the persistence
//! collaborators and returns an entity or an error. None keeps state, and
//! none tries a call a second time.

pub mod create_account_handler;
pub mod create_balance_snapshot_handler;
pub mod create_ledger_event_handler;
pub mod get_account_balance_handler;
pub mod get_account_handler;
pub mod list_accounts_handler;
pub mod list_ledger_events_handler;

pub use create_account_handler::CreateAccountHandler;
pub use create_balance_snapshot_handler::CreateBalanceSnapshotHandler;
pub use create_ledger_event_handler::CreateLedgerEventHandler;
pub use get_account_balance_handler::GetAccountBalanceHandler;
pub use get_account_handler::GetAccountHandler;
pub use list_accounts_handler::ListAccountsHandler;
pub use list_ledger_events_handler::ListLedgerEventsHandler;
