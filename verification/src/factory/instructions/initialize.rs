//! Creates the factory's state.
use vstd::prelude::*;
use crate::address::{zero_bytes, Address};
use crate::factory::errors::{FactoryError, FactoryFailure};
use crate::factory::events::FactoryInitialized;
use crate::factory::state::FactoryState;

verus! {

/// The accounts of `initialize`: the payer and the bump of the new state.
pub struct Initialize {
    pub payer: Address,
    pub factory_state_bump: u8,
}

/// Writes the factory's state. No address may be the zero address.
pub fn handler(accounts: &Initialize, governance: Address, registry: Address, game_store: Address) -> (r:
    Result<(FactoryState, FactoryInitialized), FactoryFailure>)
    ensures
        governance@ == zero_bytes() ==> r == Err::<(FactoryState, FactoryInitialized), FactoryFailure>(
            FactoryFailure::Factory(FactoryError::InvalidGovernance),
        ),
        governance@ != zero_bytes() && registry@ == zero_bytes() ==> r == Err::<
            (FactoryState, FactoryInitialized),
            FactoryFailure,
        >(FactoryFailure::Factory(FactoryError::InvalidRegistry)),
        governance@ != zero_bytes() && registry@ != zero_bytes() && game_store@ == zero_bytes() ==> r
            == Err::<(FactoryState, FactoryInitialized), FactoryFailure>(
            FactoryFailure::Factory(FactoryError::InvalidGameStore),
        ),
        governance@ != zero_bytes() && registry@ != zero_bytes() && game_store@ != zero_bytes() ==> r
            == Ok::<(FactoryState, FactoryInitialized), FactoryFailure>((
            FactoryState { bump: accounts.factory_state_bump, registry, game_store, governance },
            FactoryInitialized { governance, registry, game_store },
        )),
        r matches Ok((s, _)) ==> s.valid(),
{
    if governance.is_zero() {
        return Err(FactoryFailure::Factory(FactoryError::InvalidGovernance));
    }
    if registry.is_zero() {
        return Err(FactoryFailure::Factory(FactoryError::InvalidRegistry));
    }
    if game_store.is_zero() {
        return Err(FactoryFailure::Factory(FactoryError::InvalidGameStore));
    }
    let state = FactoryState { bump: accounts.factory_state_bump, registry, game_store, governance };
    Ok((state, FactoryInitialized { governance, registry, game_store }))
}

} // verus!
