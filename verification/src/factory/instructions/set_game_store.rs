//! Changes the factory's game store.
use vstd::prelude::*;
use crate::address::{keys_eq, zero_bytes, Address};
use crate::factory::errors::{FactoryError, FactoryFailure};
use crate::factory::events::GameStoreUpdated;
use crate::factory::state::FactoryState;

verus! {

/// The accounts of `set_game_store`: the signer and the factory's state.
pub struct SetGameStore {
    pub governance: Address,
    pub factory_state: FactoryState,
}

/// Sets the game store. Only the factory's governance may, and the new
/// address may not be the zero address.
pub fn handler(accounts: &mut SetGameStore, game_store: Address) -> (r: Result<GameStoreUpdated, FactoryFailure>)
    ensures
        old(accounts).factory_state.governance@ != old(accounts).governance@ ==> r == Err::<
            GameStoreUpdated,
            FactoryFailure,
        >(FactoryFailure::Factory(FactoryError::Unauthorized)),
        old(accounts).factory_state.governance@ == old(accounts).governance@ && game_store@
            == zero_bytes() ==> r == Err::<GameStoreUpdated, FactoryFailure>(
            FactoryFailure::Factory(FactoryError::InvalidGameStore),
        ),
        old(accounts).factory_state.governance@ == old(accounts).governance@ && game_store@ != zero_bytes() ==> r is Ok,
        r is Err ==> *final(accounts) == *old(accounts),
        r is Ok ==> old(accounts).factory_state.governance@ == old(accounts).governance@
            && game_store@ != zero_bytes(),
        r is Ok ==> r == Ok::<GameStoreUpdated, FactoryFailure>(
            GameStoreUpdated { old_game_store: old(accounts).factory_state.game_store, new_game_store: game_store },
        ) && final(accounts).factory_state == (FactoryState {
            game_store,
            ..old(accounts).factory_state
        }),
        final(accounts).governance == old(accounts).governance,
        old(accounts).factory_state.valid() ==> final(accounts).factory_state.valid(),
{
    if !keys_eq(&accounts.factory_state.governance, &accounts.governance) {
        return Err(FactoryFailure::Factory(FactoryError::Unauthorized));
    }
    if game_store.is_zero() {
        return Err(FactoryFailure::Factory(FactoryError::InvalidGameStore));
    }
    let old_game_store = accounts.factory_state.game_store;
    accounts.factory_state.game_store = game_store;
    Ok(GameStoreUpdated { old_game_store, new_game_store: game_store })
}

} // verus!
