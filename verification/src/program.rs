//! The two instructions of the program.
//!
//! Each instruction validates what the caller supplied against the
//! deployment and, if all is in order, hands back the unit of work to carry
//! out. Validation comes before everything else: a rejected instruction has
//! asked for nothing.

use vstd::prelude::*;
use crate::accounts::{CreateNft, Initialize};
use crate::action::{
    Action, Collection, CollectionDetails, CollectionVerification, MetadataRegistration,
    MintOrder, TokenData, TokenStandard,
};
use crate::address::Address;
use crate::derivation::{
    address_view, created_program_address, derivation_view, found_program_address,
    state_address, state_address_with_bump, state_seed,
};
use crate::error::CollectionError;
use crate::state::{CollectionState, Deployment};
use crate::unit::{Closing, Stage, Unit};

verus! {

/// The state that an initialization persists: the payer as authority, and
/// the three records that the initialization creates.
pub open spec fn initial_state(ctx: Initialize, bump: u8) -> CollectionState {
    CollectionState {
        authority: ctx.payer,
        collection_mint: ctx.mint,
        collection_metadata: ctx.metadata,
        collection_master_edition: ctx.master_edition,
        bump,
    }
}

/// The unit of work of an initialization: register the collection's token
/// as a non-fungible collection root of size zero, mint one unit of it to
/// the payer's holding account, persist the state.
pub open spec fn initialize_unit(
    ctx: Initialize,
    bump: u8,
    name: String,
    uri: String,
    symbol: String,
) -> Unit {
    Unit {
        registration: MetadataRegistration {
            program: ctx.token_metadata_program,
            metadata: ctx.metadata,
            master_edition: Some(ctx.master_edition),
            mint: ctx.mint,
            mint_signs: true,
            authority: ctx.payer,
            payer: ctx.payer,
            update_authority: ctx.payer,
            update_authority_signs: true,
            system_program: ctx.system_program,
            data: TokenData { name, symbol, uri, seller_fee_basis_points: 0, collection: None },
            collection_details: Some(CollectionDetails { size: 0 }),
            token_standard: TokenStandard::NonFungible,
        },
        mint: MintOrder {
            program: ctx.token_program,
            mint: ctx.mint,
            to: ctx.associated_token_account,
            authority: ctx.payer,
            amount: 1,
        },
        closing: Closing::PersistState {
            address: ctx.collection_pda,
            state: initial_state(ctx, bump),
        },
        stage: Stage::Nonexistent,
    }
}

/// What an initialization comes to, given the address and bump derived for
/// the deployment's state account.
///
/// A deployment that holds a state already rejects every initialization.
/// Otherwise the account supplied for the state has to be at the derived
/// address.
pub open spec fn initialize_outcome(
    deployment: Deployment,
    ctx: Initialize,
    derived: Option<(Seq<u8>, u8)>,
    name: String,
    uri: String,
    symbol: String,
) -> Result<Unit, CollectionError> {
    if deployment.state is Some {
        Err(CollectionError::AlreadyInitialized)
    } else {
        match derived {
            Some((address, bump)) => if address == ctx.collection_pda@ {
                Ok(initialize_unit(ctx, bump, name, uri, symbol))
            } else {
                Err(CollectionError::StateAddressMismatch)
            },
            None => Err(CollectionError::StateAddressMismatch),
        }
    }
}

/// The unit of work of an NFT creation: register the NFT's token with an
/// unverified reference to the persisted collection mint, mint one unit of
/// it to the payer's holding account, have the reference verified on the
/// proof of the persisted collection records and authority.
pub open spec fn create_nft_unit(
    state: CollectionState,
    ctx: CreateNft,
    name: String,
    uri: String,
    symbol: String,
) -> Unit {
    Unit {
        registration: MetadataRegistration {
            program: ctx.token_metadata_program,
            metadata: ctx.nft_metadata,
            master_edition: Some(ctx.nft_master_edition),
            mint: ctx.nft_mint,
            mint_signs: true,
            authority: ctx.payer,
            payer: ctx.payer,
            update_authority: ctx.payer,
            update_authority_signs: true,
            system_program: ctx.system_program,
            data: TokenData {
                name,
                symbol,
                uri,
                seller_fee_basis_points: 0,
                collection: Some(Collection { verified: false, key: state.collection_mint }),
            },
            collection_details: None,
            token_standard: TokenStandard::NonFungible,
        },
        mint: MintOrder {
            program: ctx.token_program,
            mint: ctx.nft_mint,
            to: ctx.nft_associated_token_account,
            authority: ctx.payer,
            amount: 1,
        },
        closing: Closing::VerifyCollection(
            CollectionVerification {
                program: ctx.token_metadata_program,
                metadata: ctx.nft_metadata,
                collection_metadata: state.collection_metadata,
                collection_mint: state.collection_mint,
                collection_master_edition: state.collection_master_edition,
                collection_authority: state.authority,
                payer: ctx.payer,
                system_program: ctx.system_program,
            },
        ),
        stage: Stage::Nonexistent,
    }
}

/// Whether what the caller supplied agrees with the persisted state: the
/// authority and the collection's three identities.
pub open spec fn supplied_matches(state: CollectionState, ctx: CreateNft) -> bool {
    &&& ctx.authority == state.authority
    &&& ctx.collection_metadata == state.collection_metadata
    &&& ctx.collection_mint == state.collection_mint
    &&& ctx.collection_master_edition == state.collection_master_edition
}

/// What an NFT creation comes to, given the address derived for the
/// deployment's state account from the persisted bump.
///
/// The checks are made in this order, and the first that fails decides the
/// error: the state exists; the account supplied for it is at the derived
/// address; the authority is the persisted one; the collection metadata,
/// mint and master edition are the persisted ones.
pub open spec fn create_nft_outcome(
    deployment: Deployment,
    ctx: CreateNft,
    derived: Option<Seq<u8>>,
    name: String,
    uri: String,
    symbol: String,
) -> Result<Unit, CollectionError> {
    match deployment.state {
        None => Err(CollectionError::NotInitialized),
        Some(state) => if derived != Some(ctx.collection_state@) {
            Err(CollectionError::StateAddressMismatch)
        } else if ctx.authority != state.authority {
            Err(CollectionError::Unauthorized)
        } else if ctx.collection_metadata != state.collection_metadata {
            Err(CollectionError::CollectionMetadataMismatch)
        } else if ctx.collection_mint != state.collection_mint {
            Err(CollectionError::CollectionMintMismatch)
        } else if ctx.collection_master_edition != state.collection_master_edition {
            Err(CollectionError::CollectionMasterEditionMismatch)
        } else {
            Ok(create_nft_unit(state, ctx, name, uri, symbol))
        },
    }
}

/// The address that the persisted bump derives for the deployment's state
/// account. Nothing where no state is persisted or the bump derives no
/// address.
pub open spec fn derived_from_persisted_bump(deployment: Deployment) -> Option<Seq<u8>> {
    match deployment.state {
        Some(state) => created_program_address(
            seq![state_seed(), seq![state.bump]],
            deployment.program_id@,
        ),
        None => None,
    }
}

/// The requests that an instruction asks of the host, in order: those of
/// its unit of work, and none where the instruction is rejected.
pub open spec fn requested(outcome: Result<Unit, CollectionError>) -> Seq<Action> {
    match outcome {
        Ok(unit) => unit.remaining(),
        Err(_) => Seq::empty(),
    }
}

/// Validates an initialization against the address and bump derived for the
/// state account, and plans its unit of work.
pub fn plan_initialize(
    deployment: &Deployment,
    ctx: &Initialize,
    derived: Option<(Address, u8)>,
    name: String,
    uri: String,
    symbol: String,
) -> (r: Result<Unit, CollectionError>)
    ensures
        r == initialize_outcome(*deployment, *ctx, derivation_view(derived), name, uri, symbol),
        r matches Ok(unit) ==> unit.wf(),
{
    if deployment.state.is_some() {
        return Err(CollectionError::AlreadyInitialized);
    }
    let (address, bump) = match derived {
        Some(found) => found,
        None => {
            return Err(CollectionError::StateAddressMismatch);
        },
    };
    if !address.same(&ctx.collection_pda) {
        return Err(CollectionError::StateAddressMismatch);
    }
    let state = CollectionState {
        authority: ctx.payer,
        collection_mint: ctx.mint,
        collection_metadata: ctx.metadata,
        collection_master_edition: ctx.master_edition,
        bump,
    };
    let registration = MetadataRegistration {
        program: ctx.token_metadata_program,
        metadata: ctx.metadata,
        master_edition: Some(ctx.master_edition),
        mint: ctx.mint,
        mint_signs: true,
        authority: ctx.payer,
        payer: ctx.payer,
        update_authority: ctx.payer,
        update_authority_signs: true,
        system_program: ctx.system_program,
        data: TokenData { name, symbol, uri, seller_fee_basis_points: 0, collection: None },
        collection_details: Some(CollectionDetails { size: 0 }),
        token_standard: TokenStandard::NonFungible,
    };
    let mint = MintOrder {
        program: ctx.token_program,
        mint: ctx.mint,
        to: ctx.associated_token_account,
        authority: ctx.payer,
        amount: 1,
    };
    Ok(
        Unit {
            registration,
            mint,
            closing: Closing::PersistState { address: ctx.collection_pda, state },
            stage: Stage::Nonexistent,
        },
    )
}

/// Collection initialization.
///
/// Succeeds exactly when the deployment holds no state yet and the account
/// supplied for the state is at the address derived for the deployment. The
/// unit handed back registers the collection's token, mints one unit of it
/// and persists the state: the payer as authority, the three records of the
/// collection's token, and the bump found with the address. That bump
/// derives the address of the state account again, so the state can be found
/// by whoever knows the deployment.
pub fn initialize(
    deployment: &Deployment,
    ctx: &Initialize,
    name: String,
    uri: String,
    symbol: String,
) -> (r: Result<Unit, CollectionError>)
    ensures
        r == initialize_outcome(
            *deployment,
            *ctx,
            found_program_address(seq![state_seed()], deployment.program_id@),
            name,
            uri,
            symbol,
        ),
        r matches Ok(unit) ==> unit.wf(),
        r matches Ok(unit) ==> unit.closing matches Closing::PersistState { address, state }
            && derived_from_persisted_bump(deployment.persisted(state)) == Some(address@),
{
    if deployment.state.is_some() {
        return Err(CollectionError::AlreadyInitialized);
    }
    let derived = state_address(&deployment.program_id);
    plan_initialize(deployment, ctx, derived, name, uri, symbol)
}

/// Validates an NFT creation against the address derived for the state
/// account, and plans its unit of work.
pub fn plan_create_nft(
    deployment: &Deployment,
    ctx: &CreateNft,
    derived: Option<Address>,
    name: String,
    uri: String,
    symbol: String,
) -> (r: Result<Unit, CollectionError>)
    ensures
        r == create_nft_outcome(*deployment, *ctx, address_view(derived), name, uri, symbol),
        r matches Ok(unit) ==> unit.wf(),
{
    let state = match deployment.state {
        Some(state) => state,
        None => {
            return Err(CollectionError::NotInitialized);
        },
    };
    match derived {
        Some(address) => {
            if !address.same(&ctx.collection_state) {
                return Err(CollectionError::StateAddressMismatch);
            }
        },
        None => {
            return Err(CollectionError::StateAddressMismatch);
        },
    }
    if !ctx.authority.same(&state.authority) {
        return Err(CollectionError::Unauthorized);
    }
    if !ctx.collection_metadata.same(&state.collection_metadata) {
        return Err(CollectionError::CollectionMetadataMismatch);
    }
    if !ctx.collection_mint.same(&state.collection_mint) {
        return Err(CollectionError::CollectionMintMismatch);
    }
    if !ctx.collection_master_edition.same(&state.collection_master_edition) {
        return Err(CollectionError::CollectionMasterEditionMismatch);
    }
    let registration = MetadataRegistration {
        program: ctx.token_metadata_program,
        metadata: ctx.nft_metadata,
        master_edition: Some(ctx.nft_master_edition),
        mint: ctx.nft_mint,
        mint_signs: true,
        authority: ctx.payer,
        payer: ctx.payer,
        update_authority: ctx.payer,
        update_authority_signs: true,
        system_program: ctx.system_program,
        data: TokenData {
            name,
            symbol,
            uri,
            seller_fee_basis_points: 0,
            collection: Some(Collection { verified: false, key: state.collection_mint }),
        },
        collection_details: None,
        token_standard: TokenStandard::NonFungible,
    };
    let mint = MintOrder {
        program: ctx.token_program,
        mint: ctx.nft_mint,
        to: ctx.nft_associated_token_account,
        authority: ctx.payer,
        amount: 1,
    };
    let verification = CollectionVerification {
        program: ctx.token_metadata_program,
        metadata: ctx.nft_metadata,
        collection_metadata: state.collection_metadata,
        collection_mint: state.collection_mint,
        collection_master_edition: state.collection_master_edition,
        collection_authority: state.authority,
        payer: ctx.payer,
        system_program: ctx.system_program,
    };
    Ok(
        Unit {
            registration,
            mint,
            closing: Closing::VerifyCollection(verification),
            stage: Stage::Nonexistent,
        },
    )
}

/// NFT creation.
///
/// Succeeds exactly when the deployment holds a state, the account supplied
/// for the state is at the address that the persisted bump derives, and the
/// authority and the collection's metadata, mint and master edition supplied
/// are the persisted ones. The unit handed back registers the new token with
/// an unverified reference to the persisted collection mint, mints one unit
/// of it and has the reference verified. The deployment is only read.
pub fn create_nft(
    deployment: &Deployment,
    ctx: &CreateNft,
    name: String,
    uri: String,
    symbol: String,
) -> (r: Result<Unit, CollectionError>)
    ensures
        r == create_nft_outcome(
            *deployment,
            *ctx,
            derived_from_persisted_bump(*deployment),
            name,
            uri,
            symbol,
        ),
        r matches Ok(unit) ==> unit.wf(),
{
    let derived = match deployment.state {
        Some(state) => state_address_with_bump(&deployment.program_id, state.bump),
        None => None,
    };
    plan_create_nft(deployment, ctx, derived, name, uri, symbol)
}

} // verus!
