//! The accounts that a caller supplies with each instruction.
//!
//! The host hands over identities only. It has already established that the
//! payer and the authority have signed, and that the program and sysvar
//! accounts are the ones they claim to be.

use vstd::prelude::*;
use crate::address::Address;

verus! {

/// The accounts of a collection initialization.
#[derive(Clone, Copy, Debug, PartialEq, Eq)]
pub struct Initialize {
    /// Who pays, and who becomes the collection's authority.
    pub payer: Address,
    /// The account that is to hold the collection's state.
    pub collection_pda: Address,
    /// The collection's token, not yet in existence.
    pub mint: Address,
    /// The payer's holding account for the collection's token.
    pub associated_token_account: Address,
    /// The metadata record to create for the collection's token.
    pub metadata: Address,
    /// The master edition record to create for the collection's token.
    pub master_edition: Address,
    pub system_program: Address,
    pub token_program: Address,
    pub associated_token_program: Address,
    pub token_metadata_program: Address,
    pub rent: Address,
}

/// The accounts of an NFT creation.
#[derive(Clone, Copy, Debug, PartialEq, Eq)]
pub struct CreateNft {
    /// Who pays, and who holds the new NFT.
    pub payer: Address,
    /// The account claimed to hold the collection's state.
    pub collection_state: Address,
    /// The identity claimed to be the collection's authority.
    pub authority: Address,
    /// The new NFT's token, not yet in existence.
    pub nft_mint: Address,
    /// The payer's holding account for the new NFT.
    pub nft_associated_token_account: Address,
    /// The metadata record to create for the new NFT.
    pub nft_metadata: Address,
    /// The master edition record to create for the new NFT.
    pub nft_master_edition: Address,
    /// The account claimed to be the collection's metadata record.
    pub collection_metadata: Address,
    /// The account claimed to be the collection's token.
    pub collection_mint: Address,
    /// The account claimed to be the collection's master edition record.
    pub collection_master_edition: Address,
    pub system_program: Address,
    pub token_program: Address,
    pub associated_token_program: Address,
    pub token_metadata_program: Address,
    pub rent: Address,
}

} // verus!
