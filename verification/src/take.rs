//! The settle flow: a taker satisfies the maker's terms atomically.
//!
//! The taker pays the required amount of asset B to the maker first;
//! only then is the vault's entire balance of asset A released to the
//! taker, the vault closed and the record destroyed.  All checks run
//! before any effect, so an under-funded taker never puts the maker's
//! deposit at risk and a failed settle leaves the ledger untouched.

use vstd::prelude::*;
use crate::errors::EscrowError;
use crate::ledger::{Ledger, LedgerModel, TokenAccount};

verus! {

/// The accounts a settle operation touches, by address: the two
/// parties, the two assets, the record and its vault, and the three
/// wallet token accounts the two transfers run between.
#[derive(Clone, Copy, Debug, PartialEq, Eq, Structural)]
pub struct Take {
    /// The party accepting the maker's terms.
    pub taker: u64,
    /// The party that opened the trade, as recorded.
    pub maker: u64,
    /// The asset the maker deposited.
    pub mint_a: u64,
    /// The asset the maker asked for.
    pub mint_b: u64,
    /// The maker's account for asset B; created empty when absent.
    pub maker_ata_b: u64,
    /// The taker's account for asset A; created empty when absent.
    pub taker_ata_a: u64,
    /// The taker's account for asset B, the source of the payment.
    pub taker_ata_b: u64,
    /// The escrow record being settled.
    pub escrow: u64,
    /// The holding account owned by the record.
    pub vault: u64,
}

/// Every cross-reference a settle re-validates on entry: the record
/// exists and its stored maker and assets match the supplied ones, the
/// vault belongs to the record and holds asset A, each wallet account
/// belongs to the stated party and holds the stated asset, and the
/// five accounts are pairwise distinct.
pub open spec fn take_refs_ok(s: LedgerModel, cx: Take) -> bool {
    &&& s.escrows.contains_key(cx.escrow)
    &&& s.escrows[cx.escrow].maker == cx.maker
    &&& s.escrows[cx.escrow].mint_a == cx.mint_a
    &&& s.escrows[cx.escrow].mint_b == cx.mint_b
    &&& s.accounts.contains_key(cx.vault)
    &&& s.accounts[cx.vault].owner == cx.escrow
    &&& s.accounts[cx.vault].mint == cx.mint_a
    &&& s.accounts.contains_key(cx.taker_ata_b)
    &&& s.accounts[cx.taker_ata_b].owner == cx.taker
    &&& s.accounts[cx.taker_ata_b].mint == cx.mint_b
    &&& s.accounts.contains_key(cx.maker_ata_b) ==> {
        &&& s.accounts[cx.maker_ata_b].owner == cx.maker
        &&& s.accounts[cx.maker_ata_b].mint == cx.mint_b
    }
    &&& s.accounts.contains_key(cx.taker_ata_a) ==> {
        &&& s.accounts[cx.taker_ata_a].owner == cx.taker
        &&& s.accounts[cx.taker_ata_a].mint == cx.mint_a
    }
    &&& cx.vault != cx.taker_ata_a
    &&& cx.vault != cx.taker_ata_b
    &&& cx.vault != cx.maker_ata_b
    &&& cx.taker_ata_a != cx.taker_ata_b
    &&& cx.taker_ata_a != cx.maker_ata_b
    &&& cx.taker_ata_b != cx.maker_ata_b
}

/// The taker can cover the recorded price of the trade.
pub open spec fn take_funded(s: LedgerModel, cx: Take) -> bool {
    s.accounts[cx.taker_ata_b].amount >= s.escrows[cx.escrow].receive
}

/// Both receiving balances can hold what the two transfers deliver.
pub open spec fn take_fits(s: LedgerModel, cx: Take) -> bool {
    &&& s.balance_of(cx.maker_ata_b) + s.escrows[cx.escrow].receive <= u64::MAX
    &&& s.balance_of(cx.taker_ata_a) + s.accounts[cx.vault].amount <= u64::MAX
}

/// When a settle succeeds: the record and accounts line up, the taker
/// is funded, and neither transfer would overflow a balance.
pub open spec fn take_ok(s: LedgerModel, cx: Take) -> bool {
    &&& take_refs_ok(s, cx)
    &&& take_funded(s, cx)
    &&& take_fits(s, cx)
}

/// The reason a failing settle reports: a missing record, then any
/// account that does not match the recorded values, then a transfer
/// the ledger would reject.
pub open spec fn take_err(s: LedgerModel, cx: Take) -> EscrowError {
    if !s.escrows.contains_key(cx.escrow) {
        EscrowError::NotFound
    } else if !take_refs_ok(s, cx) {
        EscrowError::AccountMismatch
    } else {
        EscrowError::InsufficientFunds
    }
}

/// The ledger after a successful settle: the price has moved from the
/// taker to the maker in asset B, the vault's entire balance has moved
/// to the taker in asset A, and the vault and the record are gone.
pub open spec fn take_apply(s: LedgerModel, cx: Take) -> LedgerModel {
    let receive = s.escrows[cx.escrow].receive;
    let vault_amount = s.accounts[cx.vault].amount;
    LedgerModel {
        accounts: s.accounts.insert(
            cx.taker_ata_b,
            TokenAccount {
                owner: cx.taker,
                mint: cx.mint_b,
                amount: (s.accounts[cx.taker_ata_b].amount - receive) as u64,
            },
        ).insert(
            cx.maker_ata_b,
            TokenAccount {
                owner: cx.maker,
                mint: cx.mint_b,
                amount: (s.balance_of(cx.maker_ata_b) + receive) as u64,
            },
        ).insert(
            cx.taker_ata_a,
            TokenAccount {
                owner: cx.taker,
                mint: cx.mint_a,
                amount: (s.balance_of(cx.taker_ata_a) + vault_amount) as u64,
            },
        ).remove(cx.vault),
        escrows: s.escrows.remove(cx.escrow),
    }
}

impl Take {
    /// Pay the maker: move the recorded price of the trade, in asset
    /// B, from the taker's account to the maker's, creating the
    /// maker's account empty when it does not exist yet.
    pub fn deposit(&self, l: &mut Ledger)
        requires
            old(l)@.escrows.contains_key(self.escrow),
            old(l)@.accounts.contains_key(self.taker_ata_b),
            old(l)@.accounts[self.taker_ata_b].owner == self.taker,
            old(l)@.accounts[self.taker_ata_b].mint == self.mint_b,
            old(l)@.accounts[self.taker_ata_b].amount >= old(l)@.escrows[self.escrow].receive,
            old(l)@.accounts.contains_key(self.maker_ata_b) ==> {
                &&& old(l)@.accounts[self.maker_ata_b].owner == self.maker
                &&& old(l)@.accounts[self.maker_ata_b].mint == self.mint_b
            },
            old(l)@.balance_of(self.maker_ata_b) + old(l)@.escrows[self.escrow].receive
                <= u64::MAX,
            self.taker_ata_b != self.maker_ata_b,
        ensures
            final(l)@.accounts == old(l)@.accounts.insert(
                self.taker_ata_b,
                TokenAccount {
                    owner: self.taker,
                    mint: self.mint_b,
                    amount: (old(l)@.accounts[self.taker_ata_b].amount
                        - old(l)@.escrows[self.escrow].receive) as u64,
                },
            ).insert(
                self.maker_ata_b,
                TokenAccount {
                    owner: self.maker,
                    mint: self.mint_b,
                    amount: (old(l)@.balance_of(self.maker_ata_b)
                        + old(l)@.escrows[self.escrow].receive) as u64,
                },
            ),
            final(l)@.escrows == old(l)@.escrows,
    {
        let e = l.escrow(self.escrow).unwrap();
        if !l.has_account(self.maker_ata_b) {
            l.create_account(self.maker_ata_b, self.maker, self.mint_b);
        }
        l.debit(self.taker_ata_b, e.receive);
        l.credit(self.maker_ata_b, e.receive);
        proof {
            assert(l@.accounts =~= old(l)@.accounts.insert(
                self.taker_ata_b,
                TokenAccount {
                    owner: self.taker,
                    mint: self.mint_b,
                    amount: (old(l)@.accounts[self.taker_ata_b].amount
                        - old(l)@.escrows[self.escrow].receive) as u64,
                },
            ).insert(
                self.maker_ata_b,
                TokenAccount {
                    owner: self.maker,
                    mint: self.mint_b,
                    amount: (old(l)@.balance_of(self.maker_ata_b)
                        + old(l)@.escrows[self.escrow].receive) as u64,
                },
            ));
        }
    }

    /// Release the deposit: move the vault's entire current balance,
    /// in asset A, to the taker's account (created empty when absent),
    /// then close the emptied vault.  The transfer is signed by the
    /// custodial authority derived from the record, which the flow
    /// holds by possessing the record itself.
    pub fn withdraw_and_close_vault(&self, l: &mut Ledger)
        requires
            old(l)@.accounts.contains_key(self.vault),
            old(l)@.accounts.contains_key(self.taker_ata_a) ==> {
                &&& old(l)@.accounts[self.taker_ata_a].owner == self.taker
                &&& old(l)@.accounts[self.taker_ata_a].mint == self.mint_a
            },
            old(l)@.balance_of(self.taker_ata_a) + old(l)@.accounts[self.vault].amount
                <= u64::MAX,
            self.vault != self.taker_ata_a,
        ensures
            final(l)@.accounts == old(l)@.accounts.insert(
                self.taker_ata_a,
                TokenAccount {
                    owner: self.taker,
                    mint: self.mint_a,
                    amount: (old(l)@.balance_of(self.taker_ata_a)
                        + old(l)@.accounts[self.vault].amount) as u64,
                },
            ).remove(self.vault),
            final(l)@.escrows == old(l)@.escrows,
    {
        let vault_amount = l.balance_of(self.vault);
        if !l.has_account(self.taker_ata_a) {
            l.create_account(self.taker_ata_a, self.taker, self.mint_a);
        }
        l.debit(self.vault, vault_amount);
        l.credit(self.taker_ata_a, vault_amount);
        l.close_account(self.vault);
        proof {
            assert(l@.accounts =~= old(l)@.accounts.insert(
                self.taker_ata_a,
                TokenAccount {
                    owner: self.taker,
                    mint: self.mint_a,
                    amount: (old(l)@.balance_of(self.taker_ata_a)
                        + old(l)@.accounts[self.vault].amount) as u64,
                },
            ).remove(self.vault));
        }
    }

    /// Settle a trade: validate the record and every supplied account,
    /// then pay the maker, release the deposit to the taker, and tear
    /// the vault and the record down.  On any failure the ledger is
    /// unchanged and the first failing check names the reason.
    pub fn handler(l: &mut Ledger, accounts: Take) -> (r: Result<(), EscrowError>)
        ensures
            take_ok(old(l)@, accounts) ==> {
                &&& r is Ok
                &&& final(l)@ == take_apply(old(l)@, accounts)
            },
            !take_ok(old(l)@, accounts) ==> {
                &&& r == Err::<(), EscrowError>(take_err(old(l)@, accounts))
                &&& final(l)@ == old(l)@
            },
    {
        let e = match l.escrow(accounts.escrow) {
            Some(e) => e,
            None => {
                return Err(EscrowError::NotFound);
            },
        };
        if e.maker != accounts.maker || e.mint_a != accounts.mint_a
            || e.mint_b != accounts.mint_b {
            return Err(EscrowError::AccountMismatch);
        }
        let vault = match l.account(accounts.vault) {
            Some(a) => a,
            None => {
                return Err(EscrowError::AccountMismatch);
            },
        };
        if vault.owner != accounts.escrow || vault.mint != accounts.mint_a {
            return Err(EscrowError::AccountMismatch);
        }
        let taker_b = match l.account(accounts.taker_ata_b) {
            Some(a) => a,
            None => {
                return Err(EscrowError::AccountMismatch);
            },
        };
        if taker_b.owner != accounts.taker || taker_b.mint != accounts.mint_b {
            return Err(EscrowError::AccountMismatch);
        }
        let maker_b_balance = match l.account(accounts.maker_ata_b) {
            Some(a) => {
                if a.owner != accounts.maker || a.mint != accounts.mint_b {
                    return Err(EscrowError::AccountMismatch);
                }
                a.amount
            },
            None => 0,
        };
        let taker_a_balance = match l.account(accounts.taker_ata_a) {
            Some(a) => {
                if a.owner != accounts.taker || a.mint != accounts.mint_a {
                    return Err(EscrowError::AccountMismatch);
                }
                a.amount
            },
            None => 0,
        };
        if accounts.vault == accounts.taker_ata_a || accounts.vault == accounts.taker_ata_b
            || accounts.vault == accounts.maker_ata_b
            || accounts.taker_ata_a == accounts.taker_ata_b
            || accounts.taker_ata_a == accounts.maker_ata_b
            || accounts.taker_ata_b == accounts.maker_ata_b {
            return Err(EscrowError::AccountMismatch);
        }
        if taker_b.amount < e.receive {
            return Err(EscrowError::InsufficientFunds);
        }
        if e.receive > u64::MAX - maker_b_balance {
            return Err(EscrowError::InsufficientFunds);
        }
        if vault.amount > u64::MAX - taker_a_balance {
            return Err(EscrowError::InsufficientFunds);
        }
        accounts.deposit(l);
        accounts.withdraw_and_close_vault(l);
        l.remove_escrow(accounts.escrow);
        proof {
            assert(l@ =~= take_apply(old(l)@, accounts));
        }
        Ok(())
    }
}

} // verus!
