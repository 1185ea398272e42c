//! The application layer: one command or query per use case, one handler
//! per command or query, and the mediator that routes between them.

pub mod commands;
pub mod handlers;
pub mod mediator;
pub mod queries;

pub use mediator::Mediator;
