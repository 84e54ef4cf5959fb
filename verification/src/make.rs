//! The open flow: a maker deposits asset A and records the terms.
//!
//! The flow creates the escrow record, creates the vault (the holding
//! account owned by the record's custodial authority) and moves the
//! maker's deposit into it.  All checks run before any effect, so the
//! operation either applies in full or leaves the ledger untouched.

use vstd::prelude::*;
use crate::errors::EscrowError;
use crate::ledger::{Ledger, LedgerModel, TokenAccount};
use crate::state::Escrow;

verus! {

/// The accounts an open operation touches, by address: the maker's
/// wallet, the two assets, the maker's source account for asset A, and
/// the addresses at which the record and the vault are to be created
/// (derived by the runtime from the maker and the nonce).
#[derive(Clone, Copy, Debug, PartialEq, Eq, Structural)]
pub struct Make {
    /// The depositing party; sole party authorized to cancel later.
    pub maker: u64,
    /// The asset being deposited.
    pub mint_a: u64,
    /// The asset the maker wants in exchange.
    pub mint_b: u64,
    /// The maker's own account holding asset A.
    pub maker_ata_a: u64,
    /// The derived address at which the record is created.
    pub escrow: u64,
    /// The derived address at which the holding account is created;
    /// it is owned by the record, never by a private key.
    pub vault: u64,
}

/// When an open succeeds: both amounts are positive, the derived
/// addresses are free, and the maker's source account holds enough of
/// asset A.
pub open spec fn make_ok(s: LedgerModel, cx: Make, receive: u64, amount: u64) -> bool {
    &&& receive > 0
    &&& amount > 0
    &&& !s.escrows.contains_key(cx.escrow)
    &&& !s.accounts.contains_key(cx.vault)
    &&& s.accounts.contains_key(cx.maker_ata_a)
    &&& s.accounts[cx.maker_ata_a].owner == cx.maker
    &&& s.accounts[cx.maker_ata_a].mint == cx.mint_a
    &&& s.accounts[cx.maker_ata_a].amount >= amount
}

/// The reason a failing open reports, by the first failing check:
/// a non-positive amount, then an address or account that does not
/// match what the flow requires, then a short source balance.
pub open spec fn make_err(s: LedgerModel, cx: Make, receive: u64, amount: u64) -> EscrowError {
    if receive == 0 || amount == 0 {
        EscrowError::InvalidAmount
    } else if s.escrows.contains_key(cx.escrow) || s.accounts.contains_key(cx.vault)
        || !s.accounts.contains_key(cx.maker_ata_a)
        || s.accounts[cx.maker_ata_a].owner != cx.maker
        || s.accounts[cx.maker_ata_a].mint != cx.mint_a {
        EscrowError::AccountMismatch
    } else {
        EscrowError::InsufficientFunds
    }
}

/// The record a successful open stores.
pub open spec fn make_record(cx: Make, seed: u64, receive: u64, bump: u8) -> Escrow {
    Escrow {
        seed,
        maker: cx.maker,
        mint_a: cx.mint_a,
        mint_b: cx.mint_b,
        receive,
        bump,
    }
}

/// The ledger after a successful open: the deposit has moved from the
/// maker's source account into the fresh vault, and the record holds
/// the supplied terms exactly.
pub open spec fn make_apply(
    s: LedgerModel,
    cx: Make,
    seed: u64,
    receive: u64,
    amount: u64,
    bump: u8,
) -> LedgerModel {
    LedgerModel {
        accounts: s.accounts.insert(
            cx.maker_ata_a,
            TokenAccount {
                amount: (s.accounts[cx.maker_ata_a].amount - amount) as u64,
                ..s.accounts[cx.maker_ata_a]
            },
        ).insert(cx.vault, TokenAccount { owner: cx.escrow, mint: cx.mint_a, amount }),
        escrows: s.escrows.insert(cx.escrow, make_record(cx, seed, receive, bump)),
    }
}

impl Make {
    /// Store the escrow record with the supplied terms.
    pub fn init_escrow(&self, l: &mut Ledger, seed: u64, receive: u64, bump: u8)
        requires
            !old(l)@.escrows.contains_key(self.escrow),
        ensures
            final(l)@.escrows == old(l)@.escrows.insert(
                self.escrow,
                make_record(*self, seed, receive, bump),
            ),
            final(l)@.accounts == old(l)@.accounts,
    {
        l.put_escrow(
            self.escrow,
            Escrow {
                seed,
                maker: self.maker,
                mint_a: self.mint_a,
                mint_b: self.mint_b,
                receive,
                bump,
            },
        );
    }

    /// Create the vault and move the maker's deposit into it.
    pub fn deposit(&self, l: &mut Ledger, amount: u64)
        requires
            !old(l)@.accounts.contains_key(self.vault),
            old(l)@.accounts.contains_key(self.maker_ata_a),
            old(l)@.accounts[self.maker_ata_a].amount >= amount,
            self.maker_ata_a != self.vault,
        ensures
            final(l)@.accounts == old(l)@.accounts.insert(
                self.maker_ata_a,
                TokenAccount {
                    amount: (old(l)@.accounts[self.maker_ata_a].amount - amount) as u64,
                    ..old(l)@.accounts[self.maker_ata_a]
                },
            ).insert(self.vault, TokenAccount { owner: self.escrow, mint: self.mint_a, amount }),
            final(l)@.escrows == old(l)@.escrows,
    {
        l.debit(self.maker_ata_a, amount);
        l.create_account(self.vault, self.escrow, self.mint_a);
        l.credit(self.vault, amount);
        proof {
            assert(l@.accounts =~= old(l)@.accounts.insert(
                self.maker_ata_a,
                TokenAccount {
                    amount: (old(l)@.accounts[self.maker_ata_a].amount - amount) as u64,
                    ..old(l)@.accounts[self.maker_ata_a]
                },
            ).insert(self.vault, TokenAccount { owner: self.escrow, mint: self.mint_a, amount }));
        }
    }

    /// Open a trade: validate the terms and the supplied accounts,
    /// then create the record, create the vault and move the deposit
    /// in.  On any failure the ledger is unchanged and the first
    /// failing check names the reason.
    pub fn handler(
        l: &mut Ledger,
        accounts: Make,
        seed: u64,
        receive: u64,
        amount: u64,
        bump: u8,
    ) -> (r: Result<(), EscrowError>)
        ensures
            make_ok(old(l)@, accounts, receive, amount) ==> {
                &&& r is Ok
                &&& final(l)@ == make_apply(old(l)@, accounts, seed, receive, amount, bump)
            },
            !make_ok(old(l)@, accounts, receive, amount) ==> {
                &&& r == Err::<(), EscrowError>(make_err(old(l)@, accounts, receive, amount))
                &&& final(l)@ == old(l)@
            },
    {
        if receive == 0 || amount == 0 {
            return Err(EscrowError::InvalidAmount);
        }
        if l.has_escrow(accounts.escrow) || l.has_account(accounts.vault) {
            return Err(EscrowError::AccountMismatch);
        }
        let src = match l.account(accounts.maker_ata_a) {
            Some(a) => a,
            None => {
                return Err(EscrowError::AccountMismatch);
            },
        };
        if src.owner != accounts.maker || src.mint != accounts.mint_a {
            return Err(EscrowError::AccountMismatch);
        }
        if src.amount < amount {
            return Err(EscrowError::InsufficientFunds);
        }
        accounts.init_escrow(l, seed, receive, bump);
        accounts.deposit(l, amount);
        proof {
            assert(l@ =~= make_apply(old(l)@, accounts, seed, receive, amount, bump));
        }
        Ok(())
    }
}

} // verus!
