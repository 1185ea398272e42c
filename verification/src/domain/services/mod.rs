//! Computations over the history of an account.

pub mod balance;

pub use balance::calculate_balance;
