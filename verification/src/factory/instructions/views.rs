//! Read-only queries of the factory's state.
use vstd::prelude::*;
use crate::address::Address;
use crate::factory::state::FactoryState;

verus! {

/// The accounts of the views: the factory's state.
pub struct GetFactoryView {
    pub factory_state: FactoryState,
}

/// The registry that the factory registers games with.
pub fn get_registry(accounts: &GetFactoryView) -> (r: Address)
    ensures
        r == accounts.factory_state.registry,
{
    accounts.factory_state.registry
}

/// The store that the factory lists games in.
pub fn get_game_store(accounts: &GetFactoryView) -> (r: Address)
    ensures
        r == accounts.factory_state.game_store,
{
    accounts.factory_state.game_store
}

/// The governance that may change the factory.
pub fn get_governance(accounts: &GetFactoryView) -> (r: Address)
    ensures
        r == accounts.factory_state.governance,
{
    accounts.factory_state.governance
}

} // verus!
