//! The failure taxonomy of the escrow protocol.

use vstd::prelude::*;

verus! {

/// Why an escrow operation was rejected.  Every precondition check is
/// local and immediate: the first failing check aborts the whole
/// operation with no partial effect, and the reason is surfaced to the
/// caller unchanged.
#[derive(Clone, Copy, Debug, PartialEq, Eq, Structural)]
pub enum EscrowError {
    /// A non-positive amount was supplied when opening a trade.
    InvalidAmount,
    /// The caller is not the party required for this operation
    /// (a cancellation attempted by someone other than the maker).
    Unauthorized,
    /// A supplied account, asset identifier, or derived address does
    /// not match the values recorded when the trade was opened.
    AccountMismatch,
    /// The ledger rejected a transfer: the source account cannot cover
    /// the amount, or the destination balance cannot hold it.
    InsufficientFunds,
    /// The referenced escrow record does not exist: it was already
    /// settled or refunded, or was never created.
    NotFound,
}

} // verus!
