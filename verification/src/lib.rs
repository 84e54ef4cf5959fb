//! A two-party conditional-transfer (escrow) protocol, verified.
//!
//! A maker deposits an amount of asset A into a holding account (the
//! vault) and records how much of asset B they require in exchange.  A
//! taker may settle the trade atomically, or the maker may reclaim the
//! deposit.  The protocol state lives in a [`ledger::Ledger`]: a map of
//! token accounts and a map of open escrow records.  The three flows
//! ([`make`], [`take`], [`refund`]) are verified against functional
//! specifications, and the laws that relate them are proved in [`laws`].

pub mod derivation;
pub mod errors;
pub mod laws;
pub mod ledger;
pub mod make;
pub mod refund;
pub mod state;
pub mod take;
