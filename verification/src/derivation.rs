//! The derivation of the state account's address.
//!
//! The state account of a deployment lives at an address that is a function
//! of a fixed seed and the program's identity, so that any caller can compute
//! it and no second state account can exist. The derivation itself is the
//! platform's; this module calls it and names its results.

use vstd::prelude::*;
use anchor_lang::prelude::Pubkey;
use crate::address::Address;

verus! {

/// The fixed seed from which the state account's address is derived: the
/// ASCII bytes of `collection_state`.
pub const STATE_SEED: [u8; 16] = [
    99, 111, 108, 108, 101, 99, 116, 105, 111, 110, 95, 115, 116, 97, 116, 101,
];

/// The fixed seed as a sequence of bytes.
pub open spec fn state_seed() -> Seq<u8> {
    seq![
        99u8, 111u8, 108u8, 108u8, 101u8, 99u8, 116u8, 105u8, 111u8, 110u8, 95u8, 115u8, 116u8,
        97u8, 116u8, 101u8,
    ]
}

/// What `Pubkey::try_find_program_address` returns for a list of seeds and a
/// program's identity: the derived address with its bump, or nothing.
pub uninterp spec fn found_program_address(seeds: Seq<Seq<u8>>, program_id: Seq<u8>) -> Option<
    (Seq<u8>, u8),
>;

/// What `Pubkey::create_program_address` returns for a list of seeds and a
/// program's identity: the derived address, or nothing where the call fails.
pub uninterp spec fn created_program_address(seeds: Seq<Seq<u8>>, program_id: Seq<u8>) -> Option<
    Seq<u8>,
>;

/// The view of a derivation's result.
pub open spec fn derivation_view(derived: Option<(Address, u8)>) -> Option<(Seq<u8>, u8)> {
    match derived {
        Some((address, bump)) => Some((address@, bump)),
        None => None,
    }
}

/// The view of an address that may be missing.
pub open spec fn address_view(address: Option<Address>) -> Option<Seq<u8>> {
    match address {
        Some(a) => Some(a@),
        None => None,
    }
}

/// Trusted: calls `Pubkey::try_find_program_address` with the one seed given.
///
/// The contract claims two things of that function. Its result depends on
/// the seeds and the program's identity alone, so it has a name. And it
/// searches the bumps from 255 downwards for the first one with which
/// `Pubkey::create_program_address`, given the seed followed by the bump,
/// yields an address, and returns that address with that bump: the address
/// found is the one that the bump found creates.
#[verifier::external_body]
fn find_program_address(seed: &[u8], program_id: &Address) -> (r: Option<(Address, u8)>)
    ensures
        derivation_view(r) == found_program_address(seq![seed@], program_id@),
        r matches Some((address, bump)) ==> created_program_address(
            seq![seed@, seq![bump]],
            program_id@,
        ) == Some(address@),
{
    let program = Pubkey::new_from_array(program_id.bytes);
    Pubkey::try_find_program_address(&[seed], &program).map(
        |(key, bump)| (Address { bytes: key.to_bytes() }, bump),
    )
}

/// Trusted: calls `Pubkey::create_program_address` with the seed given
/// followed by the bump as a seed of one byte.
///
/// The contract claims that the result depends on the seeds and the
/// program's identity alone. Whatever error the call returns is handed on as
/// nothing.
#[verifier::external_body]
fn create_program_address(seed: &[u8], bump: u8, program_id: &Address) -> (r: Option<Address>)
    ensures
        address_view(r) == created_program_address(seq![seed@, seq![bump]], program_id@),
{
    let program = Pubkey::new_from_array(program_id.bytes);
    Pubkey::create_program_address(&[seed, &[bump]], &program).ok().map(
        |key| Address { bytes: key.to_bytes() },
    )
}

/// Searches the address of a program's state account and its bump.
///
/// The address is derived from the fixed seed and the program's identity.
/// Where one is found, the bump that comes with it derives the same address
/// again through `state_address_with_bump`.
pub fn state_address(program_id: &Address) -> (r: Option<(Address, u8)>)
    ensures
        derivation_view(r) == found_program_address(seq![state_seed()], program_id@),
        r matches Some((address, bump)) ==> created_program_address(
            seq![state_seed(), seq![bump]],
            program_id@,
        ) == Some(address@),
{
    let seed: &[u8] = &STATE_SEED;
    assert(seed@ =~= state_seed());
    find_program_address(seed, program_id)
}

/// Derives the address of a program's state account from a known bump.
pub fn state_address_with_bump(program_id: &Address, bump: u8) -> (r: Option<Address>)
    ensures
        address_view(r) == created_program_address(seq![state_seed(), seq![bump]], program_id@),
{
    let seed: &[u8] = &STATE_SEED;
    assert(seed@ =~= state_seed());
    create_program_address(seed, bump, program_id)
}

} // verus!
