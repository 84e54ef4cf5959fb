//! The escrow record: the sole persistent entity of the protocol.

use vstd::prelude::*;

verus! {

/// One open trade.  The record is created by the make flow and
/// destroyed by whichever of the take and refund flows runs first;
/// it is never mutated in place.
///
/// Addresses and asset identifiers are plain `u64` handles into the
/// ledger model; `bump` is the cached derivation disambiguator for the
/// custodial authority, stored so it need not be recomputed on every
/// settlement or cancellation.
#[derive(Clone, Copy, Debug, PartialEq, Eq, Structural)]
pub struct Escrow {
    /// Caller-chosen value distinguishing several concurrent trades
    /// opened by the same maker with the same asset pair; it is part
    /// of the address derivation of the record itself.
    pub seed: u64,
    /// The wallet that opened the trade; the only party authorized to
    /// refund it, and the receiver of the counter-payment.
    pub maker: u64,
    /// The asset the maker deposited.
    pub mint_a: u64,
    /// The asset the maker wants in exchange.
    pub mint_b: u64,
    /// How much of `mint_b` settles the trade; positive for every
    /// record that reaches the open state.
    pub receive: u64,
    /// Cached derivation disambiguator for the custodial authority.
    pub bump: u8,
}

impl Escrow {
    /// A record that reaches the open state always asks for a positive
    /// amount.
    pub open spec fn wf(self) -> bool {
        self.receive > 0
    }
}

} // verus!
