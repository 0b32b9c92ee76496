//! Verified core of two Solana programs: a game factory, which registers new
//! games, and a game store, which configures prices, discounts and referral
//! fees and sells game licenses.
//!
//! Every instruction is written here as a function over plain values: the
//! accounts that the instruction reads, its arguments, and the state it
//! writes.  Account loading, signer checks, PDA seed checks of the account
//! layer and cross-program invocations are the runtime's part and stay
//! outside this crate; everything the programs decide is here, with its
//! contract.
pub mod address;
pub mod derive;
pub mod factory;
pub mod le;
pub mod store;
