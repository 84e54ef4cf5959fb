//! An in-memory model of the token ledger the escrow protocol runs on.
//!
//! The ledger holds token accounts (a balance of one asset, held for
//! one owner) and open escrow records, each addressed by a plain `u64`
//! handle.  The protocol flows validate every precondition against this
//! state and then commit their effect through the primitives below, so
//! an operation either applies in full or leaves the ledger untouched.

use vstd::prelude::*;
use std::collections::HashMap;
use crate::state::Escrow;

verus! {

broadcast use vstd::std_specs::hash::group_hash_axioms;

/// A token account: a balance of one asset, held for one owner.
/// The owner is either a wallet or an escrow record address (the
/// custodial authority derived from the record).
#[derive(Clone, Copy, Debug, PartialEq, Eq, Structural)]
pub struct TokenAccount {
    /// Address of the party or record that controls this account.
    pub owner: u64,
    /// The asset this account holds.
    pub mint: u64,
    /// Current balance.
    pub amount: u64,
}

/// The mathematical view of a [`Ledger`]: two finite maps from
/// addresses to token accounts and to open escrow records.
#[verifier::ext_equal]
pub struct LedgerModel {
    pub accounts: Map<u64, TokenAccount>,
    pub escrows: Map<u64, Escrow>,
}

impl LedgerModel {
    /// The balance of an account, zero when the account does not exist.
    pub open spec fn balance_of(self, addr: u64) -> u64 {
        if self.accounts.contains_key(addr) {
            self.accounts[addr].amount
        } else {
            0
        }
    }

    /// Every open record is well formed: it asks for a positive amount.
    pub open spec fn records_wf(self) -> bool {
        forall|x: u64| #[trigger] self.escrows.contains_key(x) ==> self.escrows[x].wf()
    }
}

/// The protocol state: token accounts and open escrow records.
pub struct Ledger {
    accounts: HashMap<u64, TokenAccount>,
    escrows: HashMap<u64, Escrow>,
}

impl View for Ledger {
    type V = LedgerModel;

    closed spec fn view(&self) -> LedgerModel {
        LedgerModel { accounts: self.accounts@, escrows: self.escrows@ }
    }
}

impl Ledger {
    /// An empty ledger: no accounts, no records.
    pub fn new() -> (l: Ledger)
        ensures
            l@.accounts == Map::<u64, TokenAccount>::empty(),
            l@.escrows == Map::<u64, Escrow>::empty(),
    {
        Ledger { accounts: HashMap::new(), escrows: HashMap::new() }
    }

    /// Look up a token account.
    pub fn account(&self, addr: u64) -> (r: Option<TokenAccount>)
        ensures
            r == if self@.accounts.contains_key(addr) {
                Some(self@.accounts[addr])
            } else {
                None::<TokenAccount>
            },
    {
        match self.accounts.get(&addr) {
            Some(a) => Some(*a),
            None => None,
        }
    }

    /// The balance of an account, zero when the account does not exist.
    pub fn balance_of(&self, addr: u64) -> (r: u64)
        ensures
            r == self@.balance_of(addr),
    {
        match self.accounts.get(&addr) {
            Some(a) => a.amount,
            None => 0,
        }
    }

    /// Whether a token account exists at `addr`.
    pub fn has_account(&self, addr: u64) -> (r: bool)
        ensures
            r == self@.accounts.contains_key(addr),
    {
        self.accounts.contains_key(&addr)
    }

    /// Look up an escrow record.
    pub fn escrow(&self, addr: u64) -> (r: Option<Escrow>)
        ensures
            r == if self@.escrows.contains_key(addr) {
                Some(self@.escrows[addr])
            } else {
                None::<Escrow>
            },
    {
        match self.escrows.get(&addr) {
            Some(e) => Some(*e),
            None => None,
        }
    }

    /// Whether an escrow record exists at `addr`.
    pub fn has_escrow(&self, addr: u64) -> (r: bool)
        ensures
            r == self@.escrows.contains_key(addr),
    {
        self.escrows.contains_key(&addr)
    }

    /// Allocate an empty token account for `owner` at a fresh address.
    pub fn create_account(&mut self, addr: u64, owner: u64, mint: u64)
        requires
            !old(self)@.accounts.contains_key(addr),
        ensures
            final(self)@.accounts == old(self)@.accounts.insert(
                addr,
                TokenAccount { owner, mint, amount: 0 },
            ),
            final(self)@.escrows == old(self)@.escrows,
    {
        self.accounts.insert(addr, TokenAccount { owner, mint, amount: 0 });
    }

    /// Add `amount` to an existing account's balance.
    pub fn credit(&mut self, addr: u64, amount: u64)
        requires
            old(self)@.accounts.contains_key(addr),
            old(self)@.accounts[addr].amount + amount <= u64::MAX,
        ensures
            final(self)@.accounts == old(self)@.accounts.insert(
                addr,
                TokenAccount {
                    amount: (old(self)@.accounts[addr].amount + amount) as u64,
                    ..old(self)@.accounts[addr]
                },
            ),
            final(self)@.escrows == old(self)@.escrows,
    {
        let a = *self.accounts.get(&addr).unwrap();
        self.accounts.insert(addr, TokenAccount { amount: a.amount + amount, ..a });
    }

    /// Remove `amount` from an existing account's balance.
    pub fn debit(&mut self, addr: u64, amount: u64)
        requires
            old(self)@.accounts.contains_key(addr),
            amount <= old(self)@.accounts[addr].amount,
        ensures
            final(self)@.accounts == old(self)@.accounts.insert(
                addr,
                TokenAccount {
                    amount: (old(self)@.accounts[addr].amount - amount) as u64,
                    ..old(self)@.accounts[addr]
                },
            ),
            final(self)@.escrows == old(self)@.escrows,
    {
        let a = *self.accounts.get(&addr).unwrap();
        self.accounts.insert(addr, TokenAccount { amount: a.amount - amount, ..a });
    }

    /// Close an emptied token account, reclaiming its storage.  The
    /// storage reserve itself is an affair of the external ledger and
    /// is not tracked here; the model tracks the protocol's assets.
    pub fn close_account(&mut self, addr: u64)
        requires
            old(self)@.accounts.contains_key(addr),
            old(self)@.accounts[addr].amount == 0,
        ensures
            final(self)@.accounts == old(self)@.accounts.remove(addr),
            final(self)@.escrows == old(self)@.escrows,
    {
        self.accounts.remove(&addr);
    }

    /// Store an escrow record at a fresh address.
    pub fn put_escrow(&mut self, addr: u64, e: Escrow)
        requires
            !old(self)@.escrows.contains_key(addr),
        ensures
            final(self)@.escrows == old(self)@.escrows.insert(addr, e),
            final(self)@.accounts == old(self)@.accounts,
    {
        self.escrows.insert(addr, e);
    }

    /// Destroy an escrow record, reclaiming its storage.
    pub fn remove_escrow(&mut self, addr: u64)
        requires
            old(self)@.escrows.contains_key(addr),
        ensures
            final(self)@.escrows == old(self)@.escrows.remove(addr),
            final(self)@.accounts == old(self)@.accounts,
    {
        self.escrows.remove(&addr);
    }
}

} // verus!
