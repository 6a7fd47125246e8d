//! An attendance registry that issues one credential to each confirmed
//! attendee.
//!
//! Attendees register their intent to attend; the owner later confirms
//! attendance, and each confirmation issues exactly one token to the attendee,
//! numbered by a counter that only moves up.
//!
//! - [`rules`] holds the decisions on plain values.
//! - [`state`] is the mathematical model of a store and of each operation.
//! - [`store`] is the store itself, and [`token`] the operations on it.
//! - [`history`] and [`laws`] state and prove what holds after any calls.
//!
//! Checking signatures and minting the token are left to the caller: the
//! operations take their results as arguments.

pub mod error;
pub mod history;
pub mod laws;
pub mod rules;
pub mod state;
pub mod store;
pub mod token;

pub use error::Error;
pub use state::Identity;
pub use store::Store;
pub use token::MyToken;
