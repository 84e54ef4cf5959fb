//! The address derivation scheme, checked against the ledger's own
//! derivation routine.

use anchor_lang::prelude::Pubkey;
use escrow::derivation::{check_escrow_address, derive_escrow_address};

const PROGRAM: [u8; 32] = [7u8; 32];
const MAKER: [u8; 32] = [42u8; 32];

#[test]
fn derivation_is_deterministic() {
    let first = derive_escrow_address(&PROGRAM, &MAKER, 9).unwrap();
    let second = derive_escrow_address(&PROGRAM, &MAKER, 9).unwrap();
    assert_eq!(first, second);
}

#[test]
fn derivation_matches_the_ledger_search() {
    let (addr, bump) = derive_escrow_address(&PROGRAM, &MAKER, 9).unwrap();
    let program_id = Pubkey::new_from_array(PROGRAM);
    let (expected, expected_bump) = Pubkey::find_program_address(
        &[b"escrow".as_ref(), MAKER.as_ref(), 9u64.to_le_bytes().as_ref()],
        &program_id,
    );
    assert_eq!(addr, expected.to_bytes());
    assert_eq!(bump, expected_bump);
}

#[test]
fn different_nonces_derive_different_addresses() {
    let (a1, _) = derive_escrow_address(&PROGRAM, &MAKER, 1).unwrap();
    let (a2, _) = derive_escrow_address(&PROGRAM, &MAKER, 2).unwrap();
    assert_ne!(a1, a2);
}

#[test]
fn check_accepts_the_derived_address_only() {
    let (addr, _) = derive_escrow_address(&PROGRAM, &MAKER, 9).unwrap();
    assert!(check_escrow_address(&PROGRAM, &MAKER, 9, &addr));
    let mut tampered = addr;
    tampered[0] = tampered[0].wrapping_add(1);
    assert!(!check_escrow_address(&PROGRAM, &MAKER, 9, &tampered));
    assert!(!check_escrow_address(&PROGRAM, &MAKER, 8, &addr));
}
