//! The requests that the program makes of the outside services.
//!
//! Each request names, role by role, the accounts that the service is to
//! work on. The program decides which account plays which role; the host
//! only carries the request out.

use vstd::prelude::*;
use crate::address::Address;
use crate::state::CollectionState;

verus! {

/// How the metadata registry classifies a token.
#[derive(Clone, Copy, Debug, PartialEq, Eq, Structural)]
pub enum TokenStandard {
    NonFungible,
    FungibleAsset,
    Fungible,
    NonFungibleEdition,
    ProgrammableNonFungible,
    ProgrammableNonFungibleEdition,
}

/// The declaration that makes a token the root of a collection.
#[derive(Clone, Copy, Debug, PartialEq, Eq, Structural)]
pub struct CollectionDetails {
    /// The number of members declared in advance.
    pub size: u64,
}

/// A token's reference to the collection it claims to belong to.
#[derive(Clone, Copy, Debug, PartialEq, Eq)]
pub struct Collection {
    /// Whether the registry attests the membership.
    pub verified: bool,
    /// The collection's token.
    pub key: Address,
}

/// What a metadata record says of its token. No creators and no usage
/// limits are ever declared.
#[derive(Clone, Debug, PartialEq, Eq)]
pub struct TokenData {
    pub name: String,
    pub symbol: String,
    pub uri: String,
    pub seller_fee_basis_points: u16,
    pub collection: Option<Collection>,
}

impl TokenData {
    /// A copy of the data.
    pub fn duplicate(&self) -> (r: TokenData)
        ensures
            r == *self,
    {
        TokenData {
            name: self.name.clone(),
            symbol: self.symbol.clone(),
            uri: self.uri.clone(),
            seller_fee_basis_points: self.seller_fee_basis_points,
            collection: self.collection,
        }
    }
}

/// A request to the metadata registry: create the metadata record and the
/// master edition of a token that does not exist yet.
#[derive(Clone, Debug, PartialEq, Eq)]
pub struct MetadataRegistration {
    /// The registry's program.
    pub program: Address,
    /// The metadata record to create.
    pub metadata: Address,
    /// The master edition record to create.
    pub master_edition: Option<Address>,
    /// The token.
    pub mint: Address,
    /// Whether the token's account signs the request.
    pub mint_signs: bool,
    /// The token's mint authority.
    pub authority: Address,
    pub payer: Address,
    /// Who may update the record later.
    pub update_authority: Address,
    /// Whether the update authority signs the request.
    pub update_authority_signs: bool,
    pub system_program: Address,
    pub data: TokenData,
    /// Present where the token is the root of a collection.
    pub collection_details: Option<CollectionDetails>,
    pub token_standard: TokenStandard,
}

impl MetadataRegistration {
    /// A copy of the request.
    pub fn duplicate(&self) -> (r: MetadataRegistration)
        ensures
            r == *self,
    {
        MetadataRegistration {
            program: self.program,
            metadata: self.metadata,
            master_edition: self.master_edition,
            mint: self.mint,
            mint_signs: self.mint_signs,
            authority: self.authority,
            payer: self.payer,
            update_authority: self.update_authority,
            update_authority_signs: self.update_authority_signs,
            system_program: self.system_program,
            data: self.data.duplicate(),
            collection_details: self.collection_details,
            token_standard: self.token_standard,
        }
    }
}

/// A request to the token ledger: mint units of a token to a holding
/// account.
#[derive(Clone, Copy, Debug, PartialEq, Eq)]
pub struct MintOrder {
    /// The ledger's program.
    pub program: Address,
    /// The token.
    pub mint: Address,
    /// The holding account that receives the units.
    pub to: Address,
    /// The token's mint authority.
    pub authority: Address,
    /// How many units to mint.
    pub amount: u64,
}

/// A request to the metadata registry: attest that a token belongs to the
/// collection it declares, on the proof of the collection's own records.
#[derive(Clone, Copy, Debug, PartialEq, Eq)]
pub struct CollectionVerification {
    /// The registry's program.
    pub program: Address,
    /// The metadata record of the token to verify.
    pub metadata: Address,
    pub collection_metadata: Address,
    pub collection_mint: Address,
    pub collection_master_edition: Address,
    /// The collection's authority, which signs the request.
    pub collection_authority: Address,
    pub payer: Address,
    pub system_program: Address,
}

/// One step that the host carries out for the program.
#[derive(Clone, Debug, PartialEq, Eq)]
pub enum Action {
    RegisterMetadata(MetadataRegistration),
    Mint(MintOrder),
    VerifyCollection(CollectionVerification),
    /// Write the collection's state into the state account.
    PersistState { address: Address, state: CollectionState },
}

} // verus!
