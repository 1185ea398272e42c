//! The commands: requests that change what is stored.

pub mod create_account_command;
pub mod create_balance_snapshot_command;
pub mod create_ledger_event_command;
pub mod create_transaction_command;

pub use create_account_command::CreateAccountCommand;
pub use create_balance_snapshot_command::CreateBalanceSnapshotCommand;
pub use create_ledger_event_command::CreateLedgerEventCommand;
pub use create_transaction_command::CreateTransactionCommand;
