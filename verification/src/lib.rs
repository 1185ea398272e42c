//! An event-sourced ledger: accounts whose balances are derived from an
//! append-only history of debit and credit events.
//!
//! The ledger validates what it is asked, decides what to store, and
//! computes balances; the stores themselves are collaborators behind the
//! traits of [`domain::repositories`].

// Items that only contracts name count as unused once the contracts are
// erased for compilation.
#![allow(unused_imports)]

pub mod api;
pub mod application;
pub mod domain;
pub mod text;
