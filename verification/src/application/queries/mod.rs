//! The queries: requests that only read what is stored.

pub mod get_account_balance_query;
pub mod get_account_query;
pub mod list_accounts_query;
pub mod list_ledger_events_query;
pub mod list_transactions_query;

pub use get_account_balance_query::GetAccountBalanceQuery;
pub use get_account_query::{GetAccountByNumberQuery, GetAccountQuery};
pub use list_accounts_query::ListAccountsQuery;
pub use list_ledger_events_query::ListLedgerEventsQuery;
pub use list_transactions_query::{GetTransactionsByAccountQuery, ListTransactionsQuery};
