//! What the transport layer hands to the ledger.

pub mod requests;

pub use requests::{CreateAccountRequest, CreateLedgerEventRequest, ListEventsQuery};
