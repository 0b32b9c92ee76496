//! What the factory's instructions report.
use vstd::prelude::*;
use crate::address::Address;

verus! {

#[derive(Clone, Copy, Debug)]
pub struct FactoryInitialized {
    pub governance: Address,
    pub registry: Address,
    pub game_store: Address,
}

#[derive(Clone, Debug)]
pub struct GameCreated {
    pub game_id: String,
    pub metadata_uri: String,
    pub publisher: Address,
    pub game: Address,
    pub mint: Address,
}

#[derive(Clone, Copy, Debug)]
pub struct RegistryUpdated {
    pub old_registry: Address,
    pub new_registry: Address,
}

#[derive(Clone, Copy, Debug)]
pub struct GameStoreUpdated {
    pub old_game_store: Address,
    pub new_game_store: Address,
}

#[derive(Clone, Copy, Debug)]
pub struct GovernanceUpdated {
    pub old_governance: Address,
    pub new_governance: Address,
}

} // verus!
