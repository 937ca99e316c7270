use nft_collection::accounts::{CreateNft, Initialize};
use nft_collection::action::{
    Action, Collection, CollectionDetails, CollectionVerification, MetadataRegistration,
    MintOrder, TokenData, TokenStandard,
};
use nft_collection::address::Address;
use nft_collection::derivation::state_address;
use nft_collection::error::{Collaborator, CollectionError, ErrorClass};
use nft_collection::program::{create_nft, initialize, plan_create_nft, plan_initialize};
use nft_collection::state::{CollectionState, Deployment};
use nft_collection::unit::{Closing, Reply, Stage, Unit};

fn key(n: u8) -> Address {
    Address { bytes: [n; 32] }
}

fn program_id() -> Address {
    key(200)
}

fn state_account() -> (Address, u8) {
    state_address(&program_id()).unwrap()
}

fn initialize_accounts() -> Initialize {
    Initialize {
        payer: key(1),
        collection_pda: state_account().0,
        mint: key(2),
        associated_token_account: key(3),
        metadata: key(4),
        master_edition: key(5),
        system_program: key(6),
        token_program: key(7),
        associated_token_program: key(8),
        token_metadata_program: key(9),
        rent: key(10),
    }
}

fn persisted_state() -> CollectionState {
    CollectionState {
        authority: key(1),
        collection_mint: key(2),
        collection_metadata: key(4),
        collection_master_edition: key(5),
        bump: state_account().1,
    }
}

fn initialized() -> Deployment {
    Deployment { program_id: program_id(), state: Some(persisted_state()) }
}

fn create_accounts() -> CreateNft {
    CreateNft {
        payer: key(20),
        collection_state: state_account().0,
        authority: key(1),
        nft_mint: key(21),
        nft_associated_token_account: key(22),
        nft_metadata: key(23),
        nft_master_edition: key(24),
        collection_metadata: key(4),
        collection_mint: key(2),
        collection_master_edition: key(5),
        system_program: key(6),
        token_program: key(7),
        associated_token_program: key(8),
        token_metadata_program: key(9),
        rent: key(10),
    }
}

fn text(s: &str) -> String {
    String::from(s)
}

fn genesis(deployment: &Deployment, ctx: &Initialize) -> Result<Unit, CollectionError> {
    initialize(deployment, ctx, text("Genesis"), text("ipfs://abc"), text("GEN"))
}

fn card(deployment: &Deployment, ctx: &CreateNft) -> Result<Unit, CollectionError> {
    create_nft(deployment, ctx, text("Card #1"), text("ipfs://def"), text("GEN"))
}

/// Carries a unit out against a deployment, accepting every outside
/// request, and hands back the requests in the order in which they came.
fn carry_out(deployment: &mut Deployment, unit: Unit) -> (Unit, Vec<Action>) {
    let mut unit = unit;
    let mut made = Vec::new();
    while let Some(action) = unit.pending() {
        let reply = match &action {
            Action::PersistState { state, .. } => match deployment.persist(*state) {
                Ok(()) => Reply::Accepted,
                Err(_) => Reply::Rejected,
            },
            _ => Reply::Accepted,
        };
        made.push(action);
        unit = unit.advance(reply).unwrap();
    }
    (unit, made)
}

#[test]
fn initialize_genesis_persists_state_and_mints_one() {
    let mut deployment = Deployment::new(program_id());
    assert_eq!(deployment, Deployment { program_id: program_id(), state: None });
    let ctx = initialize_accounts();
    let unit = genesis(&deployment, &ctx).unwrap();
    assert_eq!(unit.stage, Stage::Nonexistent);
    assert_eq!(unit.supply(), 0);
    assert_eq!(deployment.state, None);

    let (done, made) = carry_out(&mut deployment, unit);

    let registration = MetadataRegistration {
        program: key(9),
        metadata: key(4),
        master_edition: Some(key(5)),
        mint: key(2),
        mint_signs: true,
        authority: key(1),
        payer: key(1),
        update_authority: key(1),
        update_authority_signs: true,
        system_program: key(6),
        data: TokenData {
            name: text("Genesis"),
            symbol: text("GEN"),
            uri: text("ipfs://abc"),
            seller_fee_basis_points: 0,
            collection: None,
        },
        collection_details: Some(CollectionDetails { size: 0 }),
        token_standard: TokenStandard::NonFungible,
    };
    let mint = MintOrder { program: key(7), mint: key(2), to: key(3), authority: key(1), amount: 1 };
    assert_eq!(
        made,
        vec![
            Action::RegisterMetadata(registration),
            Action::Mint(mint),
            Action::PersistState { address: state_account().0, state: persisted_state() },
        ]
    );
    assert_eq!(done.stage, Stage::StatePersisted);
    assert!(done.is_complete());
    assert_eq!(done.supply(), 1);
    assert_eq!(done.collection_reference(), None);
    assert_eq!(deployment.state, Some(persisted_state()));
    assert_eq!(deployment, initialized());
}

#[test]
fn initialized_state_names_the_created_accounts() {
    let deployment = Deployment::new(program_id());
    let ctx = initialize_accounts();
    let unit = genesis(&deployment, &ctx).unwrap();
    match unit.closing {
        Closing::PersistState { address, state } => {
            assert_eq!(address, ctx.collection_pda);
            assert_eq!(state.authority, ctx.payer);
            assert_eq!(state.collection_mint, ctx.mint);
            assert_eq!(state.collection_metadata, ctx.metadata);
            assert_eq!(state.collection_master_edition, ctx.master_edition);
            assert_eq!(state.bump, state_account().1);
            assert_eq!(unit.registration.mint, state.collection_mint);
            assert_eq!(unit.registration.metadata, state.collection_metadata);
            assert_eq!(unit.registration.master_edition, Some(state.collection_master_edition));
        }
        Closing::VerifyCollection(_) => panic!("an initialization ends by persisting"),
    }
}

#[test]
fn second_initialization_is_rejected() {
    let mut deployment = Deployment::new(program_id());
    let ctx = initialize_accounts();
    let unit = genesis(&deployment, &ctx).unwrap();
    carry_out(&mut deployment, unit);
    let before = deployment;

    assert_eq!(genesis(&deployment, &ctx), Err(CollectionError::AlreadyInitialized));
    let mut other = ctx;
    other.payer = key(77);
    other.mint = key(78);
    other.collection_pda = key(79);
    assert_eq!(
        initialize(&deployment, &other, text("Again"), text("ipfs://x"), text("AGN")),
        Err(CollectionError::AlreadyInitialized)
    );
    assert_eq!(deployment, before);
}

#[test]
fn initialization_at_wrong_state_address_is_rejected() {
    let deployment = Deployment::new(program_id());
    let mut ctx = initialize_accounts();
    ctx.collection_pda = key(99);
    assert_eq!(genesis(&deployment, &ctx), Err(CollectionError::StateAddressMismatch));
    let elsewhere = Deployment::new(key(201));
    assert_eq!(
        genesis(&elsewhere, &initialize_accounts()),
        Err(CollectionError::StateAddressMismatch)
    );
}

#[test]
fn plan_initialize_follows_the_derivation_it_is_given() {
    let deployment = Deployment::new(program_id());
    let ctx = initialize_accounts();
    assert_eq!(
        plan_initialize(&deployment, &ctx, None, text("a"), text("b"), text("c")),
        Err(CollectionError::StateAddressMismatch)
    );
    assert_eq!(
        plan_initialize(&deployment, &ctx, Some((key(50), 3)), text("a"), text("b"), text("c")),
        Err(CollectionError::StateAddressMismatch)
    );
    let unit = plan_initialize(
        &deployment,
        &ctx,
        Some((ctx.collection_pda, 3)),
        text("a"),
        text("b"),
        text("c"),
    )
    .unwrap();
    assert_eq!(unit.registration.data.name, "a");
    assert_eq!(unit.registration.data.uri, "b");
    assert_eq!(unit.registration.data.symbol, "c");
    match unit.closing {
        Closing::PersistState { state, .. } => assert_eq!(state.bump, 3),
        Closing::VerifyCollection(_) => panic!("an initialization ends by persisting"),
    }
    assert_eq!(
        plan_initialize(
            &initialized(),
            &ctx,
            Some((ctx.collection_pda, 3)),
            text("a"),
            text("b"),
            text("c")
        ),
        Err(CollectionError::AlreadyInitialized)
    );
    assert_eq!(
        plan_initialize(&initialized(), &ctx, None, text("a"), text("b"), text("c")),
        Err(CollectionError::AlreadyInitialized)
    );
}

#[test]
fn create_nft_card_is_minted_and_verified() {
    let mut deployment = initialized();
    let ctx = create_accounts();
    let unit = card(&deployment, &ctx).unwrap();
    assert_eq!(unit.stage, Stage::Nonexistent);
    assert_eq!(unit.collection_reference(), None);
    assert_eq!(unit.supply(), 0);

    let (done, made) = carry_out(&mut deployment, unit);

    let registration = MetadataRegistration {
        program: key(9),
        metadata: key(23),
        master_edition: Some(key(24)),
        mint: key(21),
        mint_signs: true,
        authority: key(20),
        payer: key(20),
        update_authority: key(20),
        update_authority_signs: true,
        system_program: key(6),
        data: TokenData {
            name: text("Card #1"),
            symbol: text("GEN"),
            uri: text("ipfs://def"),
            seller_fee_basis_points: 0,
            collection: Some(Collection { verified: false, key: key(2) }),
        },
        collection_details: None,
        token_standard: TokenStandard::NonFungible,
    };
    let mint =
        MintOrder { program: key(7), mint: key(21), to: key(22), authority: key(20), amount: 1 };
    let verification = CollectionVerification {
        program: key(9),
        metadata: key(23),
        collection_metadata: key(4),
        collection_mint: key(2),
        collection_master_edition: key(5),
        collection_authority: key(1),
        payer: key(20),
        system_program: key(6),
    };
    assert_eq!(
        made,
        vec![
            Action::RegisterMetadata(registration),
            Action::Mint(mint),
            Action::VerifyCollection(verification),
        ]
    );
    assert_eq!(done.stage, Stage::CollectionVerified);
    assert!(done.is_complete());
    assert_eq!(done.supply(), 1);
    assert_eq!(done.collection_reference(), Some(Collection { verified: true, key: key(2) }));
    assert_eq!(deployment, initialized());
}

#[test]
fn create_nft_with_unrelated_collection_mint_is_rejected() {
    let deployment = initialized();
    let mut ctx = create_accounts();
    ctx.collection_mint = key(150);
    assert_eq!(card(&deployment, &ctx), Err(CollectionError::CollectionMintMismatch));
    assert_eq!(deployment, initialized());
}

#[test]
fn each_changed_identity_is_rejected() {
    let deployment = initialized();
    assert!(card(&deployment, &create_accounts()).is_ok());

    let mut ctx = create_accounts();
    ctx.authority = key(20);
    assert_eq!(card(&deployment, &ctx), Err(CollectionError::Unauthorized));

    let mut ctx = create_accounts();
    ctx.collection_metadata = key(151);
    assert_eq!(card(&deployment, &ctx), Err(CollectionError::CollectionMetadataMismatch));

    let mut ctx = create_accounts();
    ctx.collection_mint = key(4);
    assert_eq!(card(&deployment, &ctx), Err(CollectionError::CollectionMintMismatch));

    let mut ctx = create_accounts();
    ctx.collection_master_edition = key(152);
    assert_eq!(card(&deployment, &ctx), Err(CollectionError::CollectionMasterEditionMismatch));
}

#[test]
fn checks_are_made_in_order() {
    let deployment = initialized();
    let mut ctx = create_accounts();
    ctx.collection_master_edition = key(152);
    ctx.collection_mint = key(150);
    assert_eq!(card(&deployment, &ctx), Err(CollectionError::CollectionMintMismatch));
    ctx.collection_metadata = key(151);
    assert_eq!(card(&deployment, &ctx), Err(CollectionError::CollectionMetadataMismatch));
    ctx.authority = key(153);
    assert_eq!(card(&deployment, &ctx), Err(CollectionError::Unauthorized));
    ctx.collection_state = key(154);
    assert_eq!(card(&deployment, &ctx), Err(CollectionError::StateAddressMismatch));
    assert_eq!(
        card(&Deployment::new(program_id()), &ctx),
        Err(CollectionError::NotInitialized)
    );
}

#[test]
fn creation_before_initialization_is_rejected() {
    let deployment = Deployment::new(program_id());
    assert_eq!(card(&deployment, &create_accounts()), Err(CollectionError::NotInitialized));
}

#[test]
fn creation_at_wrong_state_address_is_rejected() {
    let deployment = initialized();
    let mut ctx = create_accounts();
    ctx.collection_state = key(99);
    assert_eq!(card(&deployment, &ctx), Err(CollectionError::StateAddressMismatch));

    let mut state = persisted_state();
    state.bump = state.bump.wrapping_sub(1);
    let other_bump = Deployment { program_id: program_id(), state: Some(state) };
    assert_eq!(
        card(&other_bump, &create_accounts()),
        Err(CollectionError::StateAddressMismatch)
    );
}

#[test]
fn plan_create_nft_follows_the_derivation_it_is_given() {
    let deployment = initialized();
    let ctx = create_accounts();
    assert_eq!(
        plan_create_nft(&deployment, &ctx, None, text("a"), text("b"), text("c")),
        Err(CollectionError::StateAddressMismatch)
    );
    assert_eq!(
        plan_create_nft(&deployment, &ctx, Some(key(50)), text("a"), text("b"), text("c")),
        Err(CollectionError::StateAddressMismatch)
    );
    let mut moved = ctx;
    moved.collection_state = key(50);
    let unit =
        plan_create_nft(&deployment, &moved, Some(key(50)), text("a"), text("b"), text("c"))
            .unwrap();
    assert_eq!(unit.registration.data.name, "a");
    assert_eq!(unit.registration.data.uri, "b");
    assert_eq!(unit.registration.data.symbol, "c");
    assert_eq!(unit.registration.data.seller_fee_basis_points, 0);
    assert_eq!(
        plan_create_nft(
            &Deployment::new(program_id()),
            &moved,
            Some(key(50)),
            text("a"),
            text("b"),
            text("c")
        ),
        Err(CollectionError::NotInitialized)
    );
}

#[test]
fn end_to_end_initialize_then_create() {
    let mut deployment = Deployment::new(program_id());
    let unit = genesis(&deployment, &initialize_accounts()).unwrap();
    carry_out(&mut deployment, unit);

    let unit = card(&deployment, &create_accounts()).unwrap();
    let (done, _) = carry_out(&mut deployment, unit);
    assert_eq!(done.stage, Stage::CollectionVerified);
    assert_eq!(
        done.collection_reference(),
        Some(Collection { verified: true, key: initialize_accounts().mint })
    );
}

#[test]
fn replayed_creation_makes_another_verified_nft() {
    let mut deployment = initialized();
    let first = create_accounts();
    let mut second = first;
    second.nft_mint = key(31);
    second.nft_associated_token_account = key(32);
    second.nft_metadata = key(33);
    second.nft_master_edition = key(34);

    let (one, _) = {
        let unit = card(&deployment, &first).unwrap();
        carry_out(&mut deployment, unit)
    };
    let (two, _) = {
        let unit = card(&deployment, &second).unwrap();
        carry_out(&mut deployment, unit)
    };
    assert_eq!(deployment, initialized());
    assert_ne!(one.registration.mint, two.registration.mint);
    assert_ne!(one.registration.metadata, two.registration.metadata);
    assert_eq!(one.registration.data, two.registration.data);
    assert_eq!(one.collection_reference(), two.collection_reference());
    assert_eq!(two.collection_reference(), Some(Collection { verified: true, key: key(2) }));
    assert_eq!(one.supply(), 1);
    assert_eq!(two.supply(), 1);
}

#[test]
fn every_error_has_its_class() {
    let precondition = [
        CollectionError::AlreadyInitialized,
        CollectionError::NotInitialized,
        CollectionError::Unauthorized,
        CollectionError::CollectionMetadataMismatch,
        CollectionError::CollectionMintMismatch,
        CollectionError::CollectionMasterEditionMismatch,
    ];
    for error in precondition {
        assert_eq!(error.class(), ErrorClass::PreconditionViolation);
    }
    assert_eq!(CollectionError::StateAddressMismatch.class(), ErrorClass::DerivationMismatch);
    assert_eq!(
        CollectionError::Rejected(Collaborator::TokenLedger).class(),
        ErrorClass::ExternalRejection
    );
    assert_eq!(
        CollectionError::Rejected(Collaborator::MetadataRegistry).class(),
        ErrorClass::ExternalRejection
    );
}
