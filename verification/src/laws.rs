//! What holds of the two instructions together.
//!
//! Each law is stated over the outcome functions by which the instructions'
//! own contracts are stated, and over the stages of a unit of work.

use vstd::prelude::*;
use crate::accounts::{CreateNft, Initialize};
use crate::action::{Action, Collection};
use crate::error::{CollectionError, ErrorClass};
use crate::program::{
    create_nft_outcome, create_nft_unit, derived_from_persisted_bump, initial_state,
    initialize_outcome, requested, supplied_matches,
};
use crate::state::{CollectionState, Deployment};
use crate::unit::{Closing, Reply, Stage, Unit};

verus! {

/// A successful initialization persists what it creates. The state it hands
/// to the host names the payer as authority and, as the collection's three
/// identities, exactly the token, metadata record and master edition that
/// its first step registers; it carries the derived bump and goes to the
/// derived address. Once the three steps are accepted in order, the unit is
/// complete, one unit of the collection's token is in circulation, and the
/// token carries no collection reference: nothing is verified here.
pub proof fn lemma_initialization_persists_what_it_creates(
    deployment: Deployment,
    ctx: Initialize,
    derived: Option<(Seq<u8>, u8)>,
    name: String,
    uri: String,
    symbol: String,
)
    requires
        initialize_outcome(deployment, ctx, derived, name, uri, symbol) is Ok,
    ensures
        ({
            let unit = initialize_outcome(deployment, ctx, derived, name, uri, symbol)->Ok_0;
            let state = initial_state(ctx, derived->Some_0.1);
            let done = unit.accepted().accepted().accepted();
            &&& deployment.state is None
            &&& derived is Some
            &&& derived->Some_0.0 == ctx.collection_pda@
            &&& unit.wf()
            &&& unit.stage == Stage::Nonexistent
            &&& requested(Ok(unit)) == seq![
                Action::RegisterMetadata(unit.registration),
                Action::Mint(unit.mint),
                Action::PersistState { address: ctx.collection_pda, state },
            ]
            &&& state.authority == ctx.payer
            &&& state.collection_mint == unit.registration.mint
            &&& state.collection_mint == unit.mint.mint
            &&& state.collection_metadata == unit.registration.metadata
            &&& Some(state.collection_master_edition) == unit.registration.master_edition
            &&& done.stage == Stage::StatePersisted
            &&& done.spec_is_complete()
            &&& done.spec_supply() == 1
            &&& done.spec_collection_reference() is None
        }),
{
}

/// Initialization is single-shot. Once the state that a successful
/// initialization hands to the host is persisted, every further
/// initialization of the same deployment is rejected because the state
/// exists already, whatever accounts and texts it comes with, and asks
/// nothing of the token ledger or the metadata registry.
pub proof fn lemma_initialization_is_single_shot(
    deployment: Deployment,
    first: Initialize,
    first_derived: Option<(Seq<u8>, u8)>,
    first_name: String,
    first_uri: String,
    first_symbol: String,
    second: Initialize,
    second_derived: Option<(Seq<u8>, u8)>,
    second_name: String,
    second_uri: String,
    second_symbol: String,
)
    requires
        initialize_outcome(deployment, first, first_derived, first_name, first_uri, first_symbol)
            is Ok,
    ensures
        ({
            let unit = initialize_outcome(
                deployment,
                first,
                first_derived,
                first_name,
                first_uri,
                first_symbol,
            )->Ok_0;
            let after = deployment.persisted(unit.closing->state);
            let again = initialize_outcome(
                after,
                second,
                second_derived,
                second_name,
                second_uri,
                second_symbol,
            );
            &&& unit.closing is PersistState
            &&& again == Err::<Unit, CollectionError>(CollectionError::AlreadyInitialized)
            &&& requested(again) == Seq::<Action>::empty()
        }),
{
}

/// An NFT creation succeeds exactly when the state is persisted, the account
/// supplied for it is at the derived address, and the authority and the
/// collection's metadata, mint and master edition supplied are the persisted
/// ones.
pub proof fn lemma_creation_succeeds_exactly_on_persisted_identities(
    deployment: Deployment,
    ctx: CreateNft,
    derived: Option<Seq<u8>>,
    name: String,
    uri: String,
    symbol: String,
)
    ensures
        create_nft_outcome(deployment, ctx, derived, name, uri, symbol) is Ok <==> {
            &&& deployment.state is Some
            &&& derived == Some(ctx.collection_state@)
            &&& supplied_matches(deployment.state->Some_0, ctx)
        },
        create_nft_outcome(deployment, ctx, derived, name, uri, symbol) is Ok
            ==> create_nft_outcome(deployment, ctx, derived, name, uri, symbol) == Ok::<
            Unit,
            CollectionError,
        >(create_nft_unit(deployment.state->Some_0, ctx, name, uri, symbol)),
{
}

/// Replacing any of the four checked identities by a different one turns an
/// accepted NFT creation into a rejected one. Take a creation that succeeds,
/// and change the authority or the collection's metadata, mint or master
/// edition, one or several of them, to other accounts, leaving the state
/// account as it was: the creation is rejected for a violated precondition,
/// and the error names the first of the four that no longer agrees. It asks
/// for no request at all: nothing is registered and nothing minted.
pub proof fn lemma_changed_identity_is_rejected(
    deployment: Deployment,
    accepted: CreateNft,
    changed: CreateNft,
    derived: Option<Seq<u8>>,
    name: String,
    uri: String,
    symbol: String,
)
    requires
        create_nft_outcome(deployment, accepted, derived, name, uri, symbol) is Ok,
        changed.collection_state == accepted.collection_state,
        changed.authority != accepted.authority || changed.collection_metadata
            != accepted.collection_metadata || changed.collection_mint != accepted.collection_mint
            || changed.collection_master_edition != accepted.collection_master_edition,
    ensures
        ({
            let outcome = create_nft_outcome(deployment, changed, derived, name, uri, symbol);
            &&& outcome is Err
            &&& requested(outcome) == Seq::<Action>::empty()
            &&& outcome->Err_0.spec_class() == ErrorClass::PreconditionViolation
            &&& changed.authority != accepted.authority ==> outcome->Err_0
                == CollectionError::Unauthorized
            &&& changed.authority == accepted.authority && changed.collection_metadata
                != accepted.collection_metadata ==> outcome->Err_0
                == CollectionError::CollectionMetadataMismatch
            &&& changed.authority == accepted.authority && changed.collection_metadata
                == accepted.collection_metadata && changed.collection_mint
                != accepted.collection_mint ==> outcome->Err_0
                == CollectionError::CollectionMintMismatch
            &&& changed.authority == accepted.authority && changed.collection_metadata
                == accepted.collection_metadata && changed.collection_mint
                == accepted.collection_mint ==> outcome->Err_0
                == CollectionError::CollectionMasterEditionMismatch
        }),
{
}

/// A persisted state is found again. A successful initialization hands to
/// the host a state and an address such that the state's bump derives that
/// address. Wherever that holds of a persisted state and the account that a
/// creation supplies for it, and the creation supplies the persisted
/// authority and collection identities, the creation is accepted.
pub proof fn lemma_persisted_state_admits_creation(
    deployment: Deployment,
    state: CollectionState,
    ctx: CreateNft,
    name: String,
    uri: String,
    symbol: String,
)
    requires
        derived_from_persisted_bump(deployment.persisted(state)) == Some(ctx.collection_state@),
        supplied_matches(state, ctx),
    ensures
        create_nft_outcome(
            deployment.persisted(state),
            ctx,
            derived_from_persisted_bump(deployment.persisted(state)),
            name,
            uri,
            symbol,
        ) == Ok::<Unit, CollectionError>(create_nft_unit(state, ctx, name, uri, symbol)),
{
}

/// Of two initializations that race, one wins. Both may be validated against
/// the deployment while it is empty. Once the state of the first is
/// persisted, the place is taken: the state of the second cannot be
/// persisted, and the refusal ends the second unit, at its last step, because
/// the state exists already.
pub proof fn lemma_racing_initializations_exclude_each_other(
    deployment: Deployment,
    winner: Initialize,
    winner_derived: Option<(Seq<u8>, u8)>,
    winner_name: String,
    winner_uri: String,
    winner_symbol: String,
    loser: Initialize,
    loser_derived: Option<(Seq<u8>, u8)>,
    loser_name: String,
    loser_uri: String,
    loser_symbol: String,
)
    requires
        initialize_outcome(
            deployment,
            winner,
            winner_derived,
            winner_name,
            winner_uri,
            winner_symbol,
        ) is Ok,
        initialize_outcome(deployment, loser, loser_derived, loser_name, loser_uri, loser_symbol)
            is Ok,
    ensures
        ({
            let won = initialize_outcome(
                deployment,
                winner,
                winner_derived,
                winner_name,
                winner_uri,
                winner_symbol,
            )->Ok_0;
            let lost = initialize_outcome(
                deployment,
                loser,
                loser_derived,
                loser_name,
                loser_uri,
                loser_symbol,
            )->Ok_0;
            let after = deployment.persisted(won.closing->state);
            &&& deployment.can_persist()
            &&& !after.can_persist()
            &&& after.state == Some(won.closing->state)
            &&& lost.accepted().accepted().spec_pending() == Some(
                Action::PersistState { address: loser.collection_pda, state: lost.closing->state },
            )
            &&& lost.accepted().accepted().spec_advance(Reply::Rejected) == Err::<
                Unit,
                CollectionError,
            >(CollectionError::AlreadyInitialized)
        }),
{
}

/// A created NFT is a verified member of the persisted collection. Before
/// the unit of a successful creation starts, the token has no metadata
/// record and no unit in circulation. The record is registered with an
/// unverified reference to the persisted collection mint, one unit is
/// minted, and the verification is asked for the new record on the proof of
/// the persisted collection records and authority. Once the three steps are
/// accepted in order, the unit is complete, exactly one unit is in
/// circulation, and the record's collection reference is verified and names
/// the persisted collection mint.
pub proof fn lemma_created_nft_is_verified_member(
    deployment: Deployment,
    ctx: CreateNft,
    derived: Option<Seq<u8>>,
    name: String,
    uri: String,
    symbol: String,
)
    requires
        create_nft_outcome(deployment, ctx, derived, name, uri, symbol) is Ok,
    ensures
        ({
            let unit = create_nft_outcome(deployment, ctx, derived, name, uri, symbol)->Ok_0;
            let state = deployment.state->Some_0;
            let registered = unit.accepted();
            let minted = registered.accepted();
            let verified = minted.accepted();
            &&& deployment.state is Some
            &&& unit.wf()
            &&& unit.stage == Stage::Nonexistent
            &&& unit.spec_collection_reference() is None
            &&& unit.spec_supply() == 0
            &&& requested(Ok(unit)) == seq![
                Action::RegisterMetadata(unit.registration),
                Action::Mint(unit.mint),
                Action::VerifyCollection(unit.closing->VerifyCollection_0),
            ]
            &&& unit.spec_pending() == Some(Action::RegisterMetadata(unit.registration))
            &&& unit.registration.metadata == ctx.nft_metadata
            &&& unit.registration.mint == ctx.nft_mint
            &&& registered.stage == Stage::MetadataRegistered
            &&& registered.spec_collection_reference() == Some(
                Collection { verified: false, key: state.collection_mint },
            )
            &&& registered.spec_pending() == Some(Action::Mint(unit.mint))
            &&& unit.mint.mint == ctx.nft_mint
            &&& unit.mint.amount == 1
            &&& minted.stage == Stage::Minted
            &&& minted.spec_supply() == 1
            &&& minted.spec_pending() matches Some(Action::VerifyCollection(verification))
            &&& verification.metadata == ctx.nft_metadata
            &&& verification.collection_mint == state.collection_mint
            &&& verification.collection_metadata == state.collection_metadata
            &&& verification.collection_master_edition == state.collection_master_edition
            &&& verification.collection_authority == state.authority
            &&& verified.stage == Stage::CollectionVerified
            &&& verified.spec_is_complete()
            &&& verified.spec_supply() == 1
            &&& verified.spec_collection_reference() == Some(
                Collection { verified: true, key: state.collection_mint },
            )
        }),
{
}

/// A token is verified only at the end. Whatever unit an NFT creation hands
/// back, the token's collection reference is marked verified at the stage
/// `CollectionVerified` and at no other, and that stage is reached only by
/// an accepted reply at the stage `Minted`.
pub proof fn lemma_verified_only_when_complete(unit: Unit, reply: Reply)
    requires
        unit.wf(),
        unit.closing is VerifyCollection,
    ensures
        (unit.spec_collection_reference() matches Some(reference) && reference.verified)
            <==> unit.stage == Stage::CollectionVerified,
        unit.stage != Stage::CollectionVerified ==> (unit.spec_advance(reply) matches Ok(next)
            && next.stage == Stage::CollectionVerified) == (unit.stage == Stage::Minted && reply
            == Reply::Accepted),
{
}

/// The requests come in order. The pending request is the first of those
/// that remain, an accepted reply leaves the others to be made, and a unit is
/// complete exactly when none remains.
pub proof fn lemma_requests_come_in_order(unit: Unit)
    ensures
        unit.spec_pending() is Some <==> unit.remaining().len() > 0,
        unit.spec_pending() matches Some(action) ==> action == unit.remaining()[0]
            && unit.accepted().remaining() == unit.remaining().skip(1),
        unit.spec_is_complete() <==> unit.remaining() == Seq::<Action>::empty(),
        unit.remaining().len() <= 3,
{
    match unit.stage {
        Stage::Nonexistent => {
            assert(unit.accepted().remaining() =~= unit.remaining().skip(1));
        },
        Stage::MetadataRegistered => {
            assert(unit.accepted().remaining() =~= unit.remaining().skip(1));
        },
        Stage::Minted => {
            assert(unit.accepted().remaining() =~= unit.remaining().skip(1));
        },
        _ => {},
    }
}

/// A refused request ends the unit. While a request is pending, a refusal
/// yields an error and no unit to go on with: for a request to the registry
/// or the ledger an external rejection, for the persisting of the state a
/// violated precondition. An accepted request never yields an error, and
/// three accepted requests complete a unit that has not started.
pub proof fn lemma_refusal_ends_the_unit(unit: Unit)
    ensures
        unit.spec_pending() is Some ==> unit.spec_advance(Reply::Rejected) is Err,
        unit.spec_pending() matches Some(action) ==> (unit.spec_advance(
            Reply::Rejected,
        )->Err_0.spec_class() == ErrorClass::ExternalRejection) == !(action is PersistState),
        unit.spec_advance(Reply::Accepted) is Ok,
        unit.stage == Stage::Nonexistent ==> unit.accepted().accepted().accepted().spec_is_complete(),
        unit.stage == Stage::Nonexistent ==> !unit.accepted().accepted().spec_is_complete(),
{
}

/// A unit of work ends complete or in error. Take a unit that has not
/// started and the replies to its three requests. If all three are accepted
/// the unit is complete. If one is refused, the first refusal ends the unit
/// with its error and the replies after it are never asked for: there is no
/// unit left that could be half done.
pub proof fn lemma_unit_is_all_or_nothing(unit: Unit, first: Reply, second: Reply, third: Reply)
    requires
        unit.stage == Stage::Nonexistent,
    ensures
        ({
            let end = match unit.spec_advance(first) {
                Ok(registered) => match registered.spec_advance(second) {
                    Ok(minted) => minted.spec_advance(third),
                    Err(reason) => Err(reason),
                },
                Err(reason) => Err(reason),
            };
            let all_accepted = first == Reply::Accepted && second == Reply::Accepted && third
                == Reply::Accepted;
            &&& end is Ok <==> all_accepted
            &&& end matches Ok(done) ==> done.spec_is_complete() && done.spec_supply()
                == unit.mint.amount && done.stage == unit.closing.spec_last_stage()
            &&& first == Reply::Rejected ==> end == unit.spec_advance(Reply::Rejected)
            &&& first == Reply::Accepted && second == Reply::Rejected ==> end
                == unit.accepted().spec_advance(Reply::Rejected)
            &&& first == Reply::Accepted && second == Reply::Accepted && third == Reply::Rejected
                ==> end == unit.accepted().accepted().spec_advance(Reply::Rejected)
        }),
{
}

/// Creation is repeatable. Replaying an accepted NFT creation with the same
/// texts, authority and collection identities but a fresh token and fresh
/// records is accepted again, against the same deployment, which a creation
/// only reads. The two units register and mint different tokens, and when
/// both are complete the two records carry the same collection reference,
/// verified.
pub proof fn lemma_creation_is_repeatable(
    deployment: Deployment,
    first: CreateNft,
    second: CreateNft,
    derived: Option<Seq<u8>>,
    name: String,
    uri: String,
    symbol: String,
)
    requires
        create_nft_outcome(deployment, first, derived, name, uri, symbol) is Ok,
        second.collection_state == first.collection_state,
        second.authority == first.authority,
        second.collection_metadata == first.collection_metadata,
        second.collection_mint == first.collection_mint,
        second.collection_master_edition == first.collection_master_edition,
        second.nft_mint != first.nft_mint,
        second.nft_metadata != first.nft_metadata,
    ensures
        ({
            let one = create_nft_outcome(deployment, first, derived, name, uri, symbol)->Ok_0;
            let outcome = create_nft_outcome(deployment, second, derived, name, uri, symbol);
            let two = outcome->Ok_0;
            let one_done = one.accepted().accepted().accepted();
            let two_done = two.accepted().accepted().accepted();
            &&& outcome is Ok
            &&& two.registration.mint != one.registration.mint
            &&& two.registration.metadata != one.registration.metadata
            &&& two.mint.mint != one.mint.mint
            &&& two.closing->VerifyCollection_0.metadata != one.closing->VerifyCollection_0.metadata
            &&& two.registration.data == one.registration.data
            &&& one_done.spec_supply() == 1
            &&& two_done.spec_supply() == 1
            &&& two_done.spec_collection_reference() == one_done.spec_collection_reference()
            &&& two_done.spec_collection_reference() == Some(
                Collection { verified: true, key: deployment.state->Some_0.collection_mint },
            )
        }),
{
}

} // verus!
