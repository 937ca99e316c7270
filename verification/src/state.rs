//! The persisted state of the collection and the deployment that holds it.

use vstd::prelude::*;
use crate::address::Address;
use crate::error::CollectionError;

verus! {

/// The record that binds a collection's identities to the entity that may
/// authorize new members. A deployment holds at most one, and once it is
/// there it never changes.
#[derive(Clone, Copy, Debug, PartialEq, Eq)]
pub struct CollectionState {
    /// The identity that may authorize the creation of NFTs for the
    /// collection.
    pub authority: Address,
    /// The collection's token.
    pub collection_mint: Address,
    /// The collection's metadata record.
    pub collection_metadata: Address,
    /// The collection's master edition record.
    pub collection_master_edition: Address,
    /// The bump with which the state account's address is derived.
    pub bump: u8,
}

/// One deployment of the program: its identity and the one place where its
/// state is kept. The place is empty until the collection is initialized and
/// is written exactly once.
#[derive(Clone, Copy, Debug, PartialEq, Eq)]
pub struct Deployment {
    /// The program's identity, from which the state account's address is
    /// derived.
    pub program_id: Address,
    /// The persisted state, if the collection is initialized.
    pub state: Option<CollectionState>,
}

impl Deployment {
    /// A deployment whose collection is not initialized yet.
    pub fn new(program_id: Address) -> (d: Deployment)
        ensures
            d == (Deployment { program_id, state: None }),
    {
        Deployment { program_id, state: None }
    }

    /// Whether the place for the state is still empty.
    pub open spec fn can_persist(self) -> bool {
        self.state is None
    }

    /// The deployment with `state` in the place for the state.
    pub open spec fn persisted(self, state: CollectionState) -> Deployment {
        Deployment { program_id: self.program_id, state: Some(state) }
    }

    /// Persists the state if none is there yet. A state that is there stays
    /// as it is, and the call fails.
    pub fn persist(&mut self, state: CollectionState) -> (r: Result<(), CollectionError>)
        ensures
            old(self).can_persist() ==> r is Ok && *final(self) == old(self).persisted(state),
            !old(self).can_persist() ==> r == Err::<(), CollectionError>(
                CollectionError::AlreadyInitialized,
            ) && *final(self) == *old(self),
    {
        if self.state.is_some() {
            return Err(CollectionError::AlreadyInitialized);
        }
        self.state = Some(state);
        Ok(())
    }
}

} // verus!
