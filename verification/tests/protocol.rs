//! End-to-end scenarios for the escrow state machine.

use escrow::errors::EscrowError;
use escrow::ledger::Ledger;
use escrow::make::Make;
use escrow::refund::Refund;
use escrow::take::Take;

const MAKER: u64 = 1;
const TAKER: u64 = 2;
const OUTSIDER: u64 = 3;
const MINT_A: u64 = 10;
const MINT_B: u64 = 11;
const MAKER_ATA_A: u64 = 100;
const MAKER_ATA_B: u64 = 101;
const TAKER_ATA_A: u64 = 102;
const TAKER_ATA_B: u64 = 103;
const ESCROW: u64 = 500;
const VAULT: u64 = 600;

fn make_cx() -> Make {
    Make {
        maker: MAKER,
        mint_a: MINT_A,
        mint_b: MINT_B,
        maker_ata_a: MAKER_ATA_A,
        escrow: ESCROW,
        vault: VAULT,
    }
}

fn take_cx() -> Take {
    Take {
        taker: TAKER,
        maker: MAKER,
        mint_a: MINT_A,
        mint_b: MINT_B,
        maker_ata_b: MAKER_ATA_B,
        taker_ata_a: TAKER_ATA_A,
        taker_ata_b: TAKER_ATA_B,
        escrow: ESCROW,
        vault: VAULT,
    }
}

fn refund_cx() -> Refund {
    Refund {
        maker: MAKER,
        mint_a: MINT_A,
        maker_ata_a: MAKER_ATA_A,
        escrow: ESCROW,
        vault: VAULT,
    }
}

/// A ledger where the maker owns 50 of asset A.
fn funded_maker() -> Ledger {
    let mut l = Ledger::new();
    l.create_account(MAKER_ATA_A, MAKER, MINT_A);
    l.credit(MAKER_ATA_A, 50);
    l
}

#[test]
fn open_records_terms_and_funds_vault() {
    let mut l = funded_maker();
    let r = Make::handler(&mut l, make_cx(), 7, 100, 50, 254);
    assert!(r.is_ok());
    assert_eq!(l.balance_of(VAULT), 50);
    assert_eq!(l.balance_of(MAKER_ATA_A), 0);
    let e = l.escrow(ESCROW).unwrap();
    assert_eq!(e.seed, 7);
    assert_eq!(e.maker, MAKER);
    assert_eq!(e.mint_a, MINT_A);
    assert_eq!(e.mint_b, MINT_B);
    assert_eq!(e.receive, 100);
    assert_eq!(e.bump, 254);
    let vault = l.account(VAULT).unwrap();
    assert_eq!(vault.owner, ESCROW);
    assert_eq!(vault.mint, MINT_A);
}

#[test]
fn open_zero_receive_rejected_without_partial_state() {
    let mut l = funded_maker();
    let r = Make::handler(&mut l, make_cx(), 1, 0, 50, 254);
    assert_eq!(r, Err(EscrowError::InvalidAmount));
    assert!(l.escrow(ESCROW).is_none());
    assert!(!l.has_account(VAULT));
    assert_eq!(l.balance_of(MAKER_ATA_A), 50);
}

#[test]
fn open_zero_deposit_rejected_without_partial_state() {
    let mut l = funded_maker();
    let r = Make::handler(&mut l, make_cx(), 1, 100, 0, 254);
    assert_eq!(r, Err(EscrowError::InvalidAmount));
    assert!(l.escrow(ESCROW).is_none());
    assert!(!l.has_account(VAULT));
}

#[test]
fn open_underfunded_maker_rejected() {
    let mut l = funded_maker();
    let r = Make::handler(&mut l, make_cx(), 1, 100, 51, 254);
    assert_eq!(r, Err(EscrowError::InsufficientFunds));
    assert!(l.escrow(ESCROW).is_none());
    assert_eq!(l.balance_of(MAKER_ATA_A), 50);
}

#[test]
fn open_with_wrong_source_owner_rejected() {
    let mut l = Ledger::new();
    l.create_account(MAKER_ATA_A, OUTSIDER, MINT_A);
    l.credit(MAKER_ATA_A, 50);
    let r = Make::handler(&mut l, make_cx(), 1, 100, 50, 254);
    assert_eq!(r, Err(EscrowError::AccountMismatch));
}

#[test]
fn round_trip_refund_returns_exact_deposit() {
    let mut l = funded_maker();
    assert!(Make::handler(&mut l, make_cx(), 1, 100, 50, 254).is_ok());
    let r = Refund::handler(&mut l, refund_cx());
    assert!(r.is_ok());
    assert_eq!(l.balance_of(MAKER_ATA_A), 50);
    assert!(l.escrow(ESCROW).is_none());
    assert!(!l.has_account(VAULT));
}

#[test]
fn settle_pays_both_sides_and_tears_down() {
    let mut l = funded_maker();
    l.create_account(TAKER_ATA_B, TAKER, MINT_B);
    l.credit(TAKER_ATA_B, 100);
    assert!(Make::handler(&mut l, make_cx(), 7, 100, 50, 254).is_ok());
    let r = Take::handler(&mut l, take_cx());
    assert!(r.is_ok());
    assert_eq!(l.balance_of(MAKER_ATA_B), 100);
    assert_eq!(l.balance_of(TAKER_ATA_A), 50);
    assert_eq!(l.balance_of(TAKER_ATA_B), 0);
    assert!(l.escrow(ESCROW).is_none());
    assert!(!l.has_account(VAULT));
}

#[test]
fn second_settle_of_same_record_not_found() {
    let mut l = funded_maker();
    l.create_account(TAKER_ATA_B, TAKER, MINT_B);
    l.credit(TAKER_ATA_B, 200);
    assert!(Make::handler(&mut l, make_cx(), 7, 100, 50, 254).is_ok());
    assert!(Take::handler(&mut l, take_cx()).is_ok());
    let again = Take::handler(&mut l, take_cx());
    assert_eq!(again, Err(EscrowError::NotFound));
    let refund_after = Refund::handler(&mut l, refund_cx());
    assert_eq!(refund_after, Err(EscrowError::NotFound));
}

#[test]
fn refund_then_settle_not_found() {
    let mut l = funded_maker();
    l.create_account(TAKER_ATA_B, TAKER, MINT_B);
    l.credit(TAKER_ATA_B, 100);
    assert!(Make::handler(&mut l, make_cx(), 1, 100, 50, 254).is_ok());
    assert!(Refund::handler(&mut l, refund_cx()).is_ok());
    assert_eq!(Take::handler(&mut l, take_cx()), Err(EscrowError::NotFound));
    assert_eq!(Refund::handler(&mut l, refund_cx()), Err(EscrowError::NotFound));
}

#[test]
fn settle_underfunded_taker_leaves_deposit_untouched() {
    let mut l = funded_maker();
    l.create_account(TAKER_ATA_B, TAKER, MINT_B);
    l.credit(TAKER_ATA_B, 99);
    assert!(Make::handler(&mut l, make_cx(), 1, 100, 50, 254).is_ok());
    let r = Take::handler(&mut l, take_cx());
    assert_eq!(r, Err(EscrowError::InsufficientFunds));
    assert_eq!(l.balance_of(VAULT), 50);
    assert_eq!(l.balance_of(TAKER_ATA_B), 99);
    assert!(l.escrow(ESCROW).is_some());
}

#[test]
fn settle_wrong_recorded_maker_rejected() {
    let mut l = funded_maker();
    l.create_account(TAKER_ATA_B, TAKER, MINT_B);
    l.credit(TAKER_ATA_B, 100);
    assert!(Make::handler(&mut l, make_cx(), 1, 100, 50, 254).is_ok());
    let mut cx = take_cx();
    cx.maker = OUTSIDER;
    assert_eq!(Take::handler(&mut l, cx), Err(EscrowError::AccountMismatch));
}

#[test]
fn cancel_by_non_maker_unauthorized_and_unchanged() {
    let mut l = funded_maker();
    l.create_account(101, OUTSIDER, MINT_A);
    assert!(Make::handler(&mut l, make_cx(), 1, 100, 50, 254).is_ok());
    let cx = Refund {
        maker: OUTSIDER,
        mint_a: MINT_A,
        maker_ata_a: 101,
        escrow: ESCROW,
        vault: VAULT,
    };
    let r = Refund::handler(&mut l, cx);
    assert_eq!(r, Err(EscrowError::Unauthorized));
    assert_eq!(l.balance_of(VAULT), 50);
    assert!(l.escrow(ESCROW).is_some());
}

#[test]
fn cancel_with_wrong_asset_rejected() {
    let mut l = funded_maker();
    assert!(Make::handler(&mut l, make_cx(), 1, 100, 50, 254).is_ok());
    let mut cx = refund_cx();
    cx.mint_a = MINT_B;
    assert_eq!(Refund::handler(&mut l, cx), Err(EscrowError::AccountMismatch));
    assert_eq!(l.balance_of(VAULT), 50);
}

#[test]
fn settle_creates_missing_destination_accounts() {
    // Neither the maker's asset-B account nor the taker's asset-A
    // account exists before the settle; both are created by it.
    let mut l = funded_maker();
    l.create_account(TAKER_ATA_B, TAKER, MINT_B);
    l.credit(TAKER_ATA_B, 150);
    assert!(Make::handler(&mut l, make_cx(), 1, 100, 50, 254).is_ok());
    assert!(!l.has_account(MAKER_ATA_B));
    assert!(!l.has_account(TAKER_ATA_A));
    assert!(Take::handler(&mut l, take_cx()).is_ok());
    let mb = l.account(MAKER_ATA_B).unwrap();
    assert_eq!((mb.owner, mb.mint, mb.amount), (MAKER, MINT_B, 100));
    let ta = l.account(TAKER_ATA_A).unwrap();
    assert_eq!((ta.owner, ta.mint, ta.amount), (TAKER, MINT_A, 50));
}

#[test]
fn settle_overflowing_destination_rejected() {
    let mut l = funded_maker();
    l.create_account(TAKER_ATA_B, TAKER, MINT_B);
    l.credit(TAKER_ATA_B, 100);
    l.create_account(MAKER_ATA_B, MAKER, MINT_B);
    l.credit(MAKER_ATA_B, u64::MAX - 99);
    assert!(Make::handler(&mut l, make_cx(), 1, 100, 50, 254).is_ok());
    let r = Take::handler(&mut l, take_cx());
    assert_eq!(r, Err(EscrowError::InsufficientFunds));
    assert_eq!(l.balance_of(VAULT), 50);
}

#[test]
fn open_on_occupied_record_address_rejected() {
    let mut l = funded_maker();
    assert!(Make::handler(&mut l, make_cx(), 1, 100, 25, 254).is_ok());
    // Reusing the same derived addresses for a second trade fails.
    let r = Make::handler(&mut l, make_cx(), 1, 100, 25, 254);
    assert_eq!(r, Err(EscrowError::AccountMismatch));
}
