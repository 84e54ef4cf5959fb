//! Deterministic derivation of an escrow record's address.
//!
//! A record's on-ledger address is not chosen by anyone: it is derived
//! from the maker's identity and the caller-chosen nonce, together
//! with a disambiguating bump byte, so that the identical inputs
//! reproduce the identical address on every call.  The custodial
//! authority over the holding account is the record's address itself:
//! whoever holds the record's parameters can re-derive it, and no
//! private key exists for it.
//!
//! The derivation itself is Solana's program-derived-address search,
//! reached through `anchor_lang`'s re-exported address type.  Its
//! result is a hash, so the contracts name it ([`escrow_address_of`])
//! rather than restate it; everything downstream is exact over that
//! name.  Addresses cross this module's boundary as plain 32-byte
//! arrays.

use vstd::prelude::*;

verus! {

/// The address and bump that the program-derived-address search finds
/// for the seed triple (the fixed record tag, the maker's bytes, the
/// little-endian nonce) under the given program, or nothing in the
/// statistically improbable case that no bump is viable.  The result
/// is a function of the three inputs alone.
pub uninterp spec fn escrow_address_of(program: Seq<u8>, maker: Seq<u8>, seed: u64) -> Option<
    (Seq<u8>, u8),
>;

/// Relies on `Pubkey::try_find_program_address` (anchor_lang's
/// re-export of the Solana address type): the search over bump bytes
/// is deterministic, returns the first viable bump together with the
/// derived address, and depends on the seed slices and the program id
/// alone.  The seed slices handed to it are the record tag `b"escrow"`,
/// the maker's 32 bytes and the nonce's 8 little-endian bytes, as the
/// protocol defines them.
#[verifier::external_body]
fn find_escrow_address(program: &[u8; 32], maker: &[u8; 32], seed: u64) -> (r: Option<
    ([u8; 32], u8),
>)
    ensures
        (match r {
            Some((addr, bump)) => escrow_address_of(program@, maker@, seed) == Some(
                (addr@, bump),
            ),
            None => escrow_address_of(program@, maker@, seed) is None,
        }),
{
    let program_id = anchor_lang::prelude::Pubkey::new_from_array(*program);
    let found = anchor_lang::prelude::Pubkey::try_find_program_address(
        &[b"escrow".as_ref(), maker.as_ref(), seed.to_le_bytes().as_ref()],
        &program_id,
    );
    found.map(|(addr, bump)| (addr.to_bytes(), bump))
}

/// Byte-wise equality of two addresses.
fn bytes32_eq(x: &[u8; 32], y: &[u8; 32]) -> (r: bool)
    ensures
        r == (x@ == y@),
{
    let mut i: usize = 0;
    while i < 32
        invariant
            0 <= i <= 32,
            forall|j: int| 0 <= j < i ==> x@[j] == y@[j],
        decreases 32 - i,
    {
        if x[i] != y[i] {
            return false;
        }
        i = i + 1;
    }
    proof {
        assert(x@ =~= y@);
    }
    true
}

/// Derive the escrow record's address and bump for a maker and nonce
/// under a program.  Deterministic: the identical inputs yield the
/// identical pair on every call.
pub fn derive_escrow_address(program: &[u8; 32], maker: &[u8; 32], seed: u64) -> (r: Option<
    ([u8; 32], u8),
>)
    ensures
        (match r {
            Some((addr, bump)) => escrow_address_of(program@, maker@, seed) == Some(
                (addr@, bump),
            ),
            None => escrow_address_of(program@, maker@, seed) is None,
        }),
{
    find_escrow_address(program, maker, seed)
}

/// Whether a caller-supplied address is the one derived for this
/// maker and nonce.  A supplied address must never be trusted without
/// this check: it holds exactly when the re-derived address exists and
/// equals `claimed`.
pub fn check_escrow_address(
    program: &[u8; 32],
    maker: &[u8; 32],
    seed: u64,
    claimed: &[u8; 32],
) -> (r: bool)
    ensures
        r == (match escrow_address_of(program@, maker@, seed) {
            Some((addr, bump)) => addr == claimed@,
            None => false,
        }),
{
    match find_escrow_address(program, maker, seed) {
        Some((addr, _bump)) => bytes32_eq(&addr, claimed),
        None => false,
    }
}

} // verus!
