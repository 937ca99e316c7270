//! Why an instruction is rejected.

use vstd::prelude::*;

verus! {

/// An outside service that the program asks for work.
#[derive(Clone, Copy, Debug, PartialEq, Eq, Structural)]
pub enum Collaborator {
    /// The service that tracks token balances and mint authority.
    TokenLedger,
    /// The service that stores display metadata and attests collection
    /// membership.
    MetadataRegistry,
}

/// The three classes of rejection that a caller can tell apart.
#[derive(Clone, Copy, Debug, PartialEq, Eq, Structural)]
pub enum ErrorClass {
    /// What the caller supplied does not agree with the persisted state, or
    /// the state is not in the condition that the instruction needs.
    PreconditionViolation,
    /// An outside service refused a request.
    ExternalRejection,
    /// A supplied account is not at its expected derived address.
    DerivationMismatch,
}

/// The reason for which an instruction is rejected. A rejected instruction
/// has no effect.
#[derive(Clone, Copy, Debug, PartialEq, Eq, Structural)]
pub enum CollectionError {
    /// The state of the collection exists already.
    AlreadyInitialized,
    /// The state of the collection does not exist yet.
    NotInitialized,
    /// The authority supplied is not the persisted one.
    Unauthorized,
    /// The collection metadata supplied is not the persisted one.
    CollectionMetadataMismatch,
    /// The collection mint supplied is not the persisted one.
    CollectionMintMismatch,
    /// The collection master edition supplied is not the persisted one.
    CollectionMasterEditionMismatch,
    /// The state account supplied is not at the address derived for it.
    StateAddressMismatch,
    /// An outside service refused a request.
    Rejected(Collaborator),
}

impl CollectionError {
    /// The class of each reason.
    pub open spec fn spec_class(self) -> ErrorClass {
        match self {
            CollectionError::StateAddressMismatch => ErrorClass::DerivationMismatch,
            CollectionError::Rejected(_) => ErrorClass::ExternalRejection,
            _ => ErrorClass::PreconditionViolation,
        }
    }

    /// The class to which the reason belongs.
    #[verifier::when_used_as_spec(spec_class)]
    pub fn class(self) -> (c: ErrorClass)
        ensures
            c == self.spec_class(),
    {
        match self {
            CollectionError::StateAddressMismatch => ErrorClass::DerivationMismatch,
            CollectionError::Rejected(_) => ErrorClass::ExternalRejection,
            CollectionError::AlreadyInitialized => ErrorClass::PreconditionViolation,
            CollectionError::NotInitialized => ErrorClass::PreconditionViolation,
            CollectionError::Unauthorized => ErrorClass::PreconditionViolation,
            CollectionError::CollectionMetadataMismatch => ErrorClass::PreconditionViolation,
            CollectionError::CollectionMintMismatch => ErrorClass::PreconditionViolation,
            CollectionError::CollectionMasterEditionMismatch => ErrorClass::PreconditionViolation,
        }
    }
}

} // verus!
