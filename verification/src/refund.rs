//! The cancel flow: the maker reclaims the deposit unilaterally.
//!
//! Only the party recorded as the maker may cancel.  The vault's
//! entire current balance of asset A moves back to the maker's own
//! account, the vault is closed and the record destroyed; no
//! counter-payment occurs.  All checks run before any effect, so a
//! failed cancel leaves the ledger untouched.

use vstd::prelude::*;
use crate::errors::EscrowError;
use crate::ledger::{Ledger, LedgerModel, TokenAccount};

verus! {

/// The accounts a cancel operation touches, by address: the caller
/// (who must be the recorded maker), the deposited asset, the maker's
/// own account for it, the record and its vault.
#[derive(Clone, Copy, Debug, PartialEq, Eq, Structural)]
pub struct Refund {
    /// The calling party; the operation is authorized only when this
    /// equals the maker stored in the record.
    pub maker: u64,
    /// The asset the maker deposited.
    pub mint_a: u64,
    /// The maker's own account for asset A, receiving the deposit back.
    pub maker_ata_a: u64,
    /// The escrow record being cancelled.
    pub escrow: u64,
    /// The holding account owned by the record.
    pub vault: u64,
}

/// The caller is the party the record names as maker.
pub open spec fn refund_authorized(s: LedgerModel, cx: Refund) -> bool {
    s.escrows[cx.escrow].maker == cx.maker
}

/// Every cross-reference a cancel re-validates on entry, beyond the
/// record's existence and the caller's authority: the recorded asset
/// matches, the receiving account belongs to the maker and holds that
/// asset, and the vault belongs to the record.
pub open spec fn refund_accounts_ok(s: LedgerModel, cx: Refund) -> bool {
    &&& s.escrows[cx.escrow].mint_a == cx.mint_a
    &&& s.accounts.contains_key(cx.maker_ata_a)
    &&& s.accounts[cx.maker_ata_a].owner == cx.maker
    &&& s.accounts[cx.maker_ata_a].mint == cx.mint_a
    &&& s.accounts.contains_key(cx.vault)
    &&& s.accounts[cx.vault].owner == cx.escrow
    &&& s.accounts[cx.vault].mint == cx.mint_a
    &&& cx.vault != cx.maker_ata_a
}

/// The maker's balance can hold the returned deposit.
pub open spec fn refund_fits(s: LedgerModel, cx: Refund) -> bool {
    s.accounts[cx.maker_ata_a].amount + s.accounts[cx.vault].amount <= u64::MAX
}

/// When a cancel succeeds: the record exists, the caller is its maker,
/// the accounts line up, and the returning transfer fits.
pub open spec fn refund_ok(s: LedgerModel, cx: Refund) -> bool {
    &&& s.escrows.contains_key(cx.escrow)
    &&& refund_authorized(s, cx)
    &&& refund_accounts_ok(s, cx)
    &&& refund_fits(s, cx)
}

/// The reason a failing cancel reports: a missing record, then a
/// caller other than the maker, then an account that does not match
/// the recorded values, then a transfer the ledger would reject.
pub open spec fn refund_err(s: LedgerModel, cx: Refund) -> EscrowError {
    if !s.escrows.contains_key(cx.escrow) {
        EscrowError::NotFound
    } else if !refund_authorized(s, cx) {
        EscrowError::Unauthorized
    } else if !refund_accounts_ok(s, cx) {
        EscrowError::AccountMismatch
    } else {
        EscrowError::InsufficientFunds
    }
}

/// The ledger after a successful cancel: the vault's entire balance is
/// back in the maker's own account, and the vault and the record are
/// gone.
pub open spec fn refund_apply(s: LedgerModel, cx: Refund) -> LedgerModel {
    LedgerModel {
        accounts: s.accounts.insert(
            cx.maker_ata_a,
            TokenAccount {
                owner: cx.maker,
                mint: cx.mint_a,
                amount: (s.accounts[cx.maker_ata_a].amount + s.accounts[cx.vault].amount) as u64,
            },
        ).remove(cx.vault),
        escrows: s.escrows.remove(cx.escrow),
    }
}

impl Refund {
    /// Return the vault's entire current balance to the maker's own
    /// account and close the emptied vault, signed by the custodial
    /// authority derived from the record.
    pub fn refund_and_close_vault(&self, l: &mut Ledger)
        requires
            old(l)@.accounts.contains_key(self.maker_ata_a),
            old(l)@.accounts[self.maker_ata_a].owner == self.maker,
            old(l)@.accounts[self.maker_ata_a].mint == self.mint_a,
            old(l)@.accounts.contains_key(self.vault),
            old(l)@.accounts[self.maker_ata_a].amount + old(l)@.accounts[self.vault].amount
                <= u64::MAX,
            self.vault != self.maker_ata_a,
        ensures
            final(l)@.accounts == old(l)@.accounts.insert(
                self.maker_ata_a,
                TokenAccount {
                    owner: self.maker,
                    mint: self.mint_a,
                    amount: (old(l)@.accounts[self.maker_ata_a].amount
                        + old(l)@.accounts[self.vault].amount) as u64,
                },
            ).remove(self.vault),
            final(l)@.escrows == old(l)@.escrows,
    {
        let vault_amount = l.balance_of(self.vault);
        l.debit(self.vault, vault_amount);
        l.credit(self.maker_ata_a, vault_amount);
        l.close_account(self.vault);
        proof {
            assert(l@.accounts =~= old(l)@.accounts.insert(
                self.maker_ata_a,
                TokenAccount {
                    owner: self.maker,
                    mint: self.mint_a,
                    amount: (old(l)@.accounts[self.maker_ata_a].amount
                        + old(l)@.accounts[self.vault].amount) as u64,
                },
            ).remove(self.vault));
        }
    }

    /// Cancel a trade: validate the record, the caller's authority and
    /// the supplied accounts, then return the deposit and tear the
    /// vault and the record down.  On any failure the ledger is
    /// unchanged and the first failing check names the reason.
    pub fn handler(l: &mut Ledger, accounts: Refund) -> (r: Result<(), EscrowError>)
        ensures
            refund_ok(old(l)@, accounts) ==> {
                &&& r is Ok
                &&& final(l)@ == refund_apply(old(l)@, accounts)
            },
            !refund_ok(old(l)@, accounts) ==> {
                &&& r == Err::<(), EscrowError>(refund_err(old(l)@, accounts))
                &&& final(l)@ == old(l)@
            },
    {
        let e = match l.escrow(accounts.escrow) {
            Some(e) => e,
            None => {
                return Err(EscrowError::NotFound);
            },
        };
        if e.maker != accounts.maker {
            return Err(EscrowError::Unauthorized);
        }
        if e.mint_a != accounts.mint_a {
            return Err(EscrowError::AccountMismatch);
        }
        let dest = match l.account(accounts.maker_ata_a) {
            Some(a) => a,
            None => {
                return Err(EscrowError::AccountMismatch);
            },
        };
        if dest.owner != accounts.maker || dest.mint != accounts.mint_a {
            return Err(EscrowError::AccountMismatch);
        }
        let vault = match l.account(accounts.vault) {
            Some(a) => a,
            None => {
                return Err(EscrowError::AccountMismatch);
            },
        };
        if vault.owner != accounts.escrow || vault.mint != accounts.mint_a {
            return Err(EscrowError::AccountMismatch);
        }
        if accounts.vault == accounts.maker_ata_a {
            return Err(EscrowError::AccountMismatch);
        }
        if vault.amount > u64::MAX - dest.amount {
            return Err(EscrowError::InsufficientFunds);
        }
        accounts.refund_and_close_vault(l);
        l.remove_escrow(accounts.escrow);
        proof {
            assert(l@ =~= refund_apply(old(l)@, accounts));
        }
        Ok(())
    }
}

} // verus!
