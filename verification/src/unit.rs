//! The unit of work of one instruction.
//!
//! An instruction that passes validation becomes a unit: three requests to
//! make in a fixed order. The host asks the unit which request is pending,
//! makes it, and reports the reply. An accepted request moves the token one
//! stage on; a refused one ends the unit with an error, and the host lets
//! nothing of the unit stand.

use vstd::prelude::*;
use crate::action::{
    Action, Collection, CollectionDetails, CollectionVerification, MetadataRegistration,
    MintOrder,
};
use crate::address::Address;
use crate::error::{Collaborator, CollectionError};
use crate::state::CollectionState;

verus! {

/// How far a token has come within its unit of work.
#[derive(Clone, Copy, Debug, PartialEq, Eq, Structural)]
pub enum Stage {
    /// Nothing of the token exists.
    Nonexistent,
    /// The token's metadata record exists.
    MetadataRegistered,
    /// One unit of the token is in circulation.
    Minted,
    /// The registry attests that the token belongs to its collection. The
    /// last stage of an NFT.
    CollectionVerified,
    /// The collection's state is persisted. The last stage of the
    /// collection's own token.
    StatePersisted,
}

/// How the host fared with the request that was pending.
#[derive(Clone, Copy, Debug, PartialEq, Eq, Structural)]
pub enum Reply {
    Accepted,
    Rejected,
}

/// The last step of a unit.
#[derive(Clone, Copy, Debug, PartialEq, Eq)]
pub enum Closing {
    /// An initialization ends by persisting the collection's state.
    PersistState { address: Address, state: CollectionState },
    /// An NFT creation ends by having the collection membership verified.
    VerifyCollection(CollectionVerification),
}

/// A validated instruction: its three steps and the stage reached.
#[derive(Clone, Debug, PartialEq, Eq)]
pub struct Unit {
    /// The first step.
    pub registration: MetadataRegistration,
    /// The second step.
    pub mint: MintOrder,
    /// The third step.
    pub closing: Closing,
    pub stage: Stage,
}

impl Closing {
    /// The last step as a request to the host.
    pub open spec fn spec_action(self) -> Action {
        match self {
            Closing::PersistState { address, state } => Action::PersistState { address, state },
            Closing::VerifyCollection(verification) => Action::VerifyCollection(verification),
        }
    }

    /// The stage that a token reaches when the last step is done.
    pub open spec fn spec_last_stage(self) -> Stage {
        match self {
            Closing::PersistState { .. } => Stage::StatePersisted,
            Closing::VerifyCollection(_) => Stage::CollectionVerified,
        }
    }
}

/// The error with which a unit ends when a request is refused.
pub open spec fn rejection_of(action: Action) -> CollectionError {
    match action {
        Action::RegisterMetadata(_) => CollectionError::Rejected(Collaborator::MetadataRegistry),
        Action::Mint(_) => CollectionError::Rejected(Collaborator::TokenLedger),
        Action::VerifyCollection(_) => CollectionError::Rejected(Collaborator::MetadataRegistry),
        Action::PersistState { .. } => CollectionError::AlreadyInitialized,
    }
}

impl Unit {
    /// The steps of a unit agree with each other: the token that is minted
    /// is the token that is registered, exactly one unit of it is minted, and
    /// the last step speaks of the same token. An NFT declares, unverified,
    /// the collection against which it is then verified. A collection's own
    /// token declares no collection and is registered as a root of size zero,
    /// and the state persisted for it names its own records.
    pub open spec fn wf(self) -> bool {
        &&& self.mint.mint == self.registration.mint
        &&& self.mint.authority == self.registration.authority
        &&& self.mint.amount == 1
        &&& match self.closing {
            Closing::VerifyCollection(verification) => {
                &&& verification.metadata == self.registration.metadata
                &&& self.registration.data.collection == Some(
                    Collection { verified: false, key: verification.collection_mint },
                )
                &&& self.registration.collection_details is None
                &&& self.stage != Stage::StatePersisted
            },
            Closing::PersistState { address, state } => {
                &&& self.registration.data.collection is None
                &&& self.registration.collection_details == Some(CollectionDetails { size: 0 })
                &&& state.collection_mint == self.registration.mint
                &&& state.collection_metadata == self.registration.metadata
                &&& Some(state.collection_master_edition) == self.registration.master_edition
                &&& state.authority == self.registration.authority
                &&& self.stage != Stage::CollectionVerified
            },
        }
    }

    /// The request that the host has to make next, if any.
    pub open spec fn spec_pending(self) -> Option<Action> {
        match self.stage {
            Stage::Nonexistent => Some(Action::RegisterMetadata(self.registration)),
            Stage::MetadataRegistered => Some(Action::Mint(self.mint)),
            Stage::Minted => Some(self.closing.spec_action()),
            Stage::CollectionVerified => None,
            Stage::StatePersisted => None,
        }
    }

    /// The requests that are still to be made, in the order in which the
    /// unit asks for them.
    pub open spec fn remaining(self) -> Seq<Action> {
        match self.stage {
            Stage::Nonexistent => seq![
                Action::RegisterMetadata(self.registration),
                Action::Mint(self.mint),
                self.closing.spec_action(),
            ],
            Stage::MetadataRegistered => seq![Action::Mint(self.mint), self.closing.spec_action()],
            Stage::Minted => seq![self.closing.spec_action()],
            Stage::CollectionVerified => Seq::empty(),
            Stage::StatePersisted => Seq::empty(),
        }
    }

    /// The stage that follows the present one.
    pub open spec fn spec_next_stage(self) -> Stage {
        match self.stage {
            Stage::Nonexistent => Stage::MetadataRegistered,
            Stage::MetadataRegistered => Stage::Minted,
            Stage::Minted => self.closing.spec_last_stage(),
            Stage::CollectionVerified => Stage::CollectionVerified,
            Stage::StatePersisted => Stage::StatePersisted,
        }
    }

    /// The unit one stage on, with its steps as they are.
    pub open spec fn accepted(self) -> Unit {
        Unit {
            registration: self.registration,
            mint: self.mint,
            closing: self.closing,
            stage: self.spec_next_stage(),
        }
    }

    /// The unit after the host's reply to the pending request.
    pub open spec fn spec_advance(self, reply: Reply) -> Result<Unit, CollectionError> {
        match self.spec_pending() {
            None => Ok(self),
            Some(action) => match reply {
                Reply::Accepted => Ok(self.accepted()),
                Reply::Rejected => Err(rejection_of(action)),
            },
        }
    }

    /// Whether every step is done.
    pub open spec fn spec_is_complete(self) -> bool {
        self.spec_pending() is None
    }

    /// The units of the token that are in circulation at the present stage.
    pub open spec fn spec_supply(self) -> u64 {
        match self.stage {
            Stage::Nonexistent => 0,
            Stage::MetadataRegistered => 0,
            _ => self.mint.amount,
        }
    }

    /// The collection reference that the token's metadata record carries at
    /// the present stage. Before registration there is no record. The record
    /// is created with the reference as declared, and a verification that
    /// the registry accepts marks that reference as verified.
    pub open spec fn spec_collection_reference(self) -> Option<Collection> {
        match self.stage {
            Stage::Nonexistent => None,
            Stage::CollectionVerified => match self.registration.data.collection {
                Some(declared) => Some(Collection { verified: true, key: declared.key }),
                None => None,
            },
            _ => self.registration.data.collection,
        }
    }

    /// The request that the host has to make next. `None` when the unit is
    /// complete.
    pub fn pending(&self) -> (r: Option<Action>)
        ensures
            r == self.spec_pending(),
    {
        match self.stage {
            Stage::Nonexistent => Some(Action::RegisterMetadata(self.registration.duplicate())),
            Stage::MetadataRegistered => Some(Action::Mint(self.mint)),
            Stage::Minted => match self.closing {
                Closing::PersistState { address, state } => Some(
                    Action::PersistState { address, state },
                ),
                Closing::VerifyCollection(verification) => Some(
                    Action::VerifyCollection(verification),
                ),
            },
            Stage::CollectionVerified => None,
            Stage::StatePersisted => None,
        }
    }

    /// Whether every step is done.
    pub fn is_complete(&self) -> (b: bool)
        ensures
            b == self.spec_is_complete(),
    {
        match self.stage {
            Stage::CollectionVerified => true,
            Stage::StatePersisted => true,
            _ => false,
        }
    }

    /// Takes the host's reply to the pending request.
    ///
    /// An accepted request moves the unit to the next stage. A refused one
    /// ends the unit: with the service that refused, or, where the state
    /// could not be persisted, because a state is there already. A reply that
    /// comes when nothing is pending leaves the unit as it is.
    pub fn advance(self, reply: Reply) -> (r: Result<Unit, CollectionError>)
        ensures
            r == self.spec_advance(reply),
            self.wf() ==> (r matches Ok(next) ==> next.wf()),
    {
        let next = match self.stage {
            Stage::Nonexistent => match reply {
                Reply::Accepted => Stage::MetadataRegistered,
                Reply::Rejected => {
                    return Err(CollectionError::Rejected(Collaborator::MetadataRegistry));
                },
            },
            Stage::MetadataRegistered => match reply {
                Reply::Accepted => Stage::Minted,
                Reply::Rejected => {
                    return Err(CollectionError::Rejected(Collaborator::TokenLedger));
                },
            },
            Stage::Minted => match self.closing {
                Closing::PersistState { .. } => match reply {
                    Reply::Accepted => Stage::StatePersisted,
                    Reply::Rejected => {
                        return Err(CollectionError::AlreadyInitialized);
                    },
                },
                Closing::VerifyCollection(_) => match reply {
                    Reply::Accepted => Stage::CollectionVerified,
                    Reply::Rejected => {
                        return Err(CollectionError::Rejected(Collaborator::MetadataRegistry));
                    },
                },
            },
            Stage::CollectionVerified => {
                return Ok(self);
            },
            Stage::StatePersisted => {
                return Ok(self);
            },
        };
        Ok(Unit { registration: self.registration, mint: self.mint, closing: self.closing, stage: next })
    }

    /// The units of the token that are in circulation at the present stage.
    pub fn supply(&self) -> (n: u64)
        ensures
            n == self.spec_supply(),
    {
        match self.stage {
            Stage::Nonexistent => 0,
            Stage::MetadataRegistered => 0,
            _ => self.mint.amount,
        }
    }

    /// The collection reference that the token's metadata record carries at
    /// the present stage.
    pub fn collection_reference(&self) -> (r: Option<Collection>)
        ensures
            r == self.spec_collection_reference(),
    {
        match self.stage {
            Stage::Nonexistent => None,
            Stage::CollectionVerified => match self.registration.data.collection {
                Some(declared) => Some(Collection { verified: true, key: declared.key }),
                None => None,
            },
            _ => self.registration.data.collection,
        }
    }
}

} // verus!
