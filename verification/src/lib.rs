//! Verified core of an on-chain program that manages one NFT collection.
//!
//! The program has two instructions. Initialization creates the collection's
//! token and persists the collection's identities; NFT creation mints a token
//! and has it verified as a member of the collection. Both work through
//! outside services, so each instruction is a unit of work: the program
//! validates what the caller supplied and says which requests to make, in
//! which order; the host makes them and reports how each one went.

pub mod accounts;
pub mod action;
pub mod address;
pub mod derivation;
pub mod error;
pub mod laws;
pub mod program;
pub mod state;
pub mod unit;

pub use accounts::{CreateNft, Initialize};
pub use program::{create_nft, initialize};
pub use state::CollectionState;
