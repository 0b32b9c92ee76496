//! Errors of the factory.
use vstd::prelude::*;

verus! {

/// The factory's own error codes.
#[derive(Clone, Copy, Debug, PartialEq, Eq, Structural)]
pub enum FactoryError {
    EmptyGameId,
    EmptyMetadataUri,
    GameIdTooLong,
    MetadataUriTooLong,
    InvalidGovernance,
    InvalidRegistry,
    InvalidGameStore,
    InvalidMint,
    Unauthorized,
}

/// Why an instruction of the factory fails: one of its own codes, or a
/// failure of the account layer.
#[derive(Clone, Copy, Debug, PartialEq, Eq, Structural)]
pub enum FactoryFailure {
    Factory(FactoryError),
    /// An `address = ..` account constraint does not hold.
    ConstraintAddress,
    /// No bump seed turns the seeds into a program address; the runtime
    /// aborts the instruction.
    NoViableBump,
}

} // verus!
