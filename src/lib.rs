//! Paper-validation markets: a registry that opens a market on a paper
//! identifier, and a ledger that tallies validation votes against it.
//!
//! The library holds the state transitions only. Account storage, signature
//! verification, the clock and the event log belong to the host runtime, which
//! hands the library plain values and takes plain values back.

pub mod error;
pub mod identity;
pub mod ledger;
pub mod market;

pub use error::CustomError;
pub use ledger::{can_validate, validate_paper, ValidationEvent};
pub use market::{create_market, Market};
