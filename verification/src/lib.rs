//! A trustless two-party atomic token swap.
//!
//! An initializer locks a balance of one token kind in a temporary holding
//! account, records the terms of the trade in a persistent escrow record, and
//! hands custody of the holding account to a derived, keyless program address.
//! A taker who meets the recorded terms triggers a single all-or-nothing
//! exchange that pays the initializer and releases the locked tokens.

pub mod error;
pub mod instruction;
pub mod key;
pub mod ledger;
pub mod processor;
pub mod state;
pub mod token;
