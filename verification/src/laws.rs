//! The laws of the escrow state machine, proved over the functional
//! specifications of the three flows.
//!
//! Each law speaks about every ledger state and every choice of
//! accounts; together with the flow handlers' own contracts (a failing
//! flow leaves the ledger untouched, a successful one applies its
//! specification exactly) they pin the protocol down.

use vstd::prelude::*;
use crate::errors::EscrowError;
use crate::ledger::LedgerModel;
use crate::make::{Make, make_apply, make_err, make_ok, make_record};
use crate::refund::{Refund, refund_apply, refund_err, refund_ok};
use crate::take::{Take, take_apply, take_err, take_ok, take_refs_ok};

verus! {

/// A successful open stores the supplied terms exactly and leaves the
/// deposit, in full, in a holding account owned by the record: the
/// vault's balance equals the deposit, and the record that reaches the
/// open state is well formed (it asks for a positive amount).
pub proof fn lemma_open_creates_funded_vault(
    s: LedgerModel,
    cx: Make,
    seed: u64,
    receive: u64,
    amount: u64,
    bump: u8,
)
    requires
        make_ok(s, cx, receive, amount),
    ensures
        ({
            let s2 = make_apply(s, cx, seed, receive, amount, bump);
            &&& s2.escrows.contains_key(cx.escrow)
            &&& s2.escrows[cx.escrow] == make_record(cx, seed, receive, bump)
            &&& s2.escrows[cx.escrow].wf()
            &&& s2.accounts.contains_key(cx.vault)
            &&& s2.accounts[cx.vault].owner == cx.escrow
            &&& s2.accounts[cx.vault].mint == cx.mint_a
            &&& s2.accounts[cx.vault].amount == amount
            &&& s2.balance_of(cx.maker_ata_a) == s.balance_of(cx.maker_ata_a) - amount
        }),
{
}

/// An open with a non-positive amount on either side is always
/// rejected as `InvalidAmount`, whatever the rest of the ledger looks
/// like; by the handler's contract such a failure creates neither a
/// record nor a holding account.
pub proof fn lemma_open_zero_amount_rejected(
    s: LedgerModel,
    cx: Make,
    receive: u64,
    amount: u64,
)
    requires
        receive == 0 || amount == 0,
    ensures
        !make_ok(s, cx, receive, amount),
        make_err(s, cx, receive, amount) == EscrowError::InvalidAmount,
{
}

/// After a successful settle the record and its vault are both gone,
/// and no later settle or cancel of the same record can succeed: each
/// is rejected as `NotFound`.  Together with
/// [`lemma_refunded_record_is_terminal`] this says that of settle and
/// cancel exactly one can ever succeed against a given record.
pub proof fn lemma_settled_record_is_terminal(
    s: LedgerModel,
    cx: Take,
    later_take: Take,
    later_refund: Refund,
)
    requires
        take_ok(s, cx),
        later_take.escrow == cx.escrow,
        later_refund.escrow == cx.escrow,
    ensures
        ({
            let s2 = take_apply(s, cx);
            &&& !s2.escrows.contains_key(cx.escrow)
            &&& !s2.accounts.contains_key(cx.vault)
            &&& !take_ok(s2, later_take)
            &&& take_err(s2, later_take) == EscrowError::NotFound
            &&& !refund_ok(s2, later_refund)
            &&& refund_err(s2, later_refund) == EscrowError::NotFound
        }),
{
}

/// After a successful cancel the record and its vault are both gone,
/// and no later settle or cancel of the same record can succeed: each
/// is rejected as `NotFound`.
pub proof fn lemma_refunded_record_is_terminal(
    s: LedgerModel,
    cx: Refund,
    later_take: Take,
    later_refund: Refund,
)
    requires
        refund_ok(s, cx),
        later_take.escrow == cx.escrow,
        later_refund.escrow == cx.escrow,
    ensures
        ({
            let s2 = refund_apply(s, cx);
            &&& !s2.escrows.contains_key(cx.escrow)
            &&& !s2.accounts.contains_key(cx.vault)
            &&& !take_ok(s2, later_take)
            &&& take_err(s2, later_take) == EscrowError::NotFound
            &&& !refund_ok(s2, later_refund)
            &&& refund_err(s2, later_refund) == EscrowError::NotFound
        }),
{
}

/// A taker whose asset-B balance is below the recorded price cannot
/// settle: the operation is rejected as `InsufficientFunds`, and by
/// the handler's contract the ledger — the maker's deposit included —
/// is unchanged.
pub proof fn lemma_settle_underfunded_rejected(s: LedgerModel, cx: Take)
    requires
        take_refs_ok(s, cx),
        s.accounts[cx.taker_ata_b].amount < s.escrows[cx.escrow].receive,
    ensures
        !take_ok(s, cx),
        take_err(s, cx) == EscrowError::InsufficientFunds,
{
}

/// A caller other than the recorded maker cannot cancel: the
/// operation is rejected as `Unauthorized`, and by the handler's
/// contract the holding account and the record are unchanged.
pub proof fn lemma_cancel_unauthorized_rejected(s: LedgerModel, cx: Refund)
    requires
        s.escrows.contains_key(cx.escrow),
        s.escrows[cx.escrow].maker != cx.maker,
    ensures
        !refund_ok(s, cx),
        refund_err(s, cx) == EscrowError::Unauthorized,
{
}

/// A successful settle moves value exactly as the record promises:
/// the maker's asset-B balance grows by precisely the recorded price,
/// the taker pays precisely that price, the taker's asset-A balance
/// grows by precisely the vault's entire balance, and the vault and
/// the record are gone.
pub proof fn lemma_settle_pays_exactly(s: LedgerModel, cx: Take)
    requires
        take_ok(s, cx),
    ensures
        ({
            let s2 = take_apply(s, cx);
            let receive = s.escrows[cx.escrow].receive;
            let deposit = s.accounts[cx.vault].amount;
            &&& s2.balance_of(cx.maker_ata_b) == s.balance_of(cx.maker_ata_b) + receive
            &&& s2.balance_of(cx.taker_ata_b) == s.balance_of(cx.taker_ata_b) - receive
            &&& s2.balance_of(cx.taker_ata_a) == s.balance_of(cx.taker_ata_a) + deposit
            &&& !s2.accounts.contains_key(cx.vault)
            &&& !s2.escrows.contains_key(cx.escrow)
        }),
{
}

/// A successful cancel returns the vault's entire balance — exactly
/// the deposit, as no partial withdrawal ever exists — to the maker's
/// own account, and the vault and the record are gone.
pub proof fn lemma_cancel_returns_exactly(s: LedgerModel, cx: Refund)
    requires
        refund_ok(s, cx),
    ensures
        ({
            let s2 = refund_apply(s, cx);
            &&& s2.balance_of(cx.maker_ata_a) == s.balance_of(cx.maker_ata_a)
                + s.accounts[cx.vault].amount
            &&& !s2.accounts.contains_key(cx.vault)
            &&& !s2.escrows.contains_key(cx.escrow)
        }),
{
}

/// An open touches nothing but its own accounts: every token account
/// other than the maker's source account and the fresh vault, and
/// every record other than the fresh one, is exactly as before.
pub proof fn lemma_open_frame(
    s: LedgerModel,
    cx: Make,
    seed: u64,
    receive: u64,
    amount: u64,
    bump: u8,
)
    requires
        make_ok(s, cx, receive, amount),
    ensures
        ({
            let s2 = make_apply(s, cx, seed, receive, amount, bump);
            &&& forall|a: u64|
                #![auto]
                a != cx.maker_ata_a && a != cx.vault ==> s2.accounts.contains_key(a)
                    == s.accounts.contains_key(a) && (s.accounts.contains_key(a)
                    ==> s2.accounts[a] == s.accounts[a])
            &&& forall|x: u64|
                #![auto]
                x != cx.escrow ==> s2.escrows.contains_key(x) == s.escrows.contains_key(x) && (
                s.escrows.contains_key(x) ==> s2.escrows[x] == s.escrows[x])
        }),
{
}

/// A settle touches nothing but its own accounts: every token account
/// other than the vault and the three wallet accounts, and every
/// record other than the settled one, is exactly as before.
pub proof fn lemma_settle_frame(s: LedgerModel, cx: Take)
    requires
        take_ok(s, cx),
    ensures
        ({
            let s2 = take_apply(s, cx);
            &&& forall|a: u64|
                #![auto]
                a != cx.vault && a != cx.taker_ata_a && a != cx.taker_ata_b && a
                    != cx.maker_ata_b ==> s2.accounts.contains_key(a) == s.accounts.contains_key(
                    a,
                ) && (s.accounts.contains_key(a) ==> s2.accounts[a] == s.accounts[a])
            &&& forall|x: u64|
                #![auto]
                x != cx.escrow ==> s2.escrows.contains_key(x) == s.escrows.contains_key(x) && (
                s.escrows.contains_key(x) ==> s2.escrows[x] == s.escrows[x])
        }),
{
}

/// A cancel touches nothing but its own accounts: every token account
/// other than the vault and the maker's receiving account, and every
/// record other than the cancelled one, is exactly as before.
pub proof fn lemma_cancel_frame(s: LedgerModel, cx: Refund)
    requires
        refund_ok(s, cx),
    ensures
        ({
            let s2 = refund_apply(s, cx);
            &&& forall|a: u64|
                #![auto]
                a != cx.vault && a != cx.maker_ata_a ==> s2.accounts.contains_key(a)
                    == s.accounts.contains_key(a) && (s.accounts.contains_key(a)
                    ==> s2.accounts[a] == s.accounts[a])
            &&& forall|x: u64|
                #![auto]
                x != cx.escrow ==> s2.escrows.contains_key(x) == s.escrows.contains_key(x) && (
                s.escrows.contains_key(x) ==> s2.escrows[x] == s.escrows[x])
        }),
{
}

/// Each flow preserves the invariant that every open record asks for a
/// positive amount: an open stores a well-formed record, and a settle
/// or cancel only removes one.
pub proof fn lemma_flows_preserve_record_wf(
    s: LedgerModel,
    mk: Make,
    tk: Take,
    rf: Refund,
    seed: u64,
    receive: u64,
    amount: u64,
    bump: u8,
)
    requires
        s.records_wf(),
    ensures
        make_ok(s, mk, receive, amount) ==> make_apply(
            s,
            mk,
            seed,
            receive,
            amount,
            bump,
        ).records_wf(),
        take_ok(s, tk) ==> take_apply(s, tk).records_wf(),
        refund_ok(s, rf) ==> refund_apply(s, rf).records_wf(),
{
}

} // verus!
