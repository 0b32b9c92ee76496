//! Errors of the game store program.
use vstd::prelude::*;

verus! {

/// The store's own error codes.
#[derive(Clone, Copy, Debug, PartialEq, Eq, Structural)]
pub enum StoreError {
    Unauthorized,
    InvalidPlatformFeeBps,
    InvalidDefaultReferralBps,
    InvalidMaxReferralBps,
    ReferralAboveMax,
    SourceProgramNotAuthorized,
    RegistryProgramNotAuthorized,
    PaymentTokenNotAllowed,
    PaymentTokenDisabled,
    InvalidPrice,
    PriceNotFound,
    StoreGameInactive,
    GameNotActive,
    GameNotRegistered,
    AlreadyOwned,
    InvalidDiscountBps,
    InvalidDiscountWindow,
    InvalidReferralBps,
    MathOverflow,
    InvalidPaymentAmount,
    UnsupportedSourceGameOwner,
    RegistryGameMismatch,
    PaymentFailed,
    LicenseMintFailed,
    MissingReferrerTokenAccount,
    InvalidReferrerTokenAccount,
    InvalidTreasury,
    InvalidStoreActor,
    InvalidRole,
    InsufficientRole,
    GamePaymentOptionMismatch,
}

/// Why an instruction of the store fails: one of the store's own codes, or a
/// failure that the account framework or the instruction decoder reports.
#[derive(Clone, Copy, Debug, PartialEq, Eq, Structural)]
pub enum ProgramError {
    Store(StoreError),
    /// A `has_one` account constraint does not hold.
    HasOneMismatch,
    /// The instruction data is too short or holds an invalid tag.
    InvalidInstructionData,
    /// An account holds fewer bytes than its layout needs.
    AccountDataTooSmall,
    /// An account's discriminator is not the expected one.
    InvalidAccountData,
    /// An account is owned by another program than the expected one.
    IllegalOwner,
    /// An account holds fewer than the eight bytes of a discriminator.
    AccountDiscriminatorNotFound,
    /// An account's discriminator is not the one of the expected type.
    AccountDiscriminatorMismatch,
    /// An account's fields do not decode.
    AccountDidNotDeserialize,
    /// No bump seed turns the seeds into a program address; the runtime
    /// aborts the instruction.
    NoViableBump,
}

} // verus!
