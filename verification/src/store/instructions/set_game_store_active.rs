//! Opens or closes a game's sale.
use vstd::prelude::*;
use crate::address::{keys_eq, Address};
use crate::store::errors::{ProgramError, StoreError};
use crate::store::events::GameStoreActiveUpdated;
use crate::store::external::{
    assert_active_registry_game, pgl_game_publisher, registry_game_game, registry_game_status,
    PglGame, RegistryGame, RegistryGameStatus,
};
use crate::store::state::{AuthorizedProgram, GameStoreConfig};

verus! {

/// The accounts of `set_game_store_active`.
pub struct SetGameStoreActive {
    pub publisher: Address,
    pub authorized_source_program: AuthorizedProgram,
    pub game: PglGame,
    pub registry_game: RegistryGame,
    pub game_store_config: GameStoreConfig,
}

/// Why `set_game_store_active` fails, if it does: the license program must
/// be trusted, the settings must be the game's, the signer must be the
/// game's publisher, and the registry must hold the game active.
pub open spec fn set_game_store_active_error(a: SetGameStoreActive) -> Option<ProgramError> {
    let game = a.game.account().address@;
    if !a.authorized_source_program.active {
        Some(ProgramError::Store(StoreError::SourceProgramNotAuthorized))
    } else if a.game_store_config.game@ != game {
        Some(ProgramError::HasOneMismatch)
    } else if pgl_game_publisher(a.game.account().data@) != a.publisher@ {
        Some(ProgramError::Store(StoreError::Unauthorized))
    } else if registry_game_game(a.registry_game.account().data@) != game {
        Some(ProgramError::Store(StoreError::RegistryGameMismatch))
    } else if registry_game_status(a.registry_game.account().data@) != RegistryGameStatus::Active {
        Some(ProgramError::Store(StoreError::GameNotActive))
    } else {
        None
    }
}

/// Sets whether the game is on sale.
pub fn handler(accounts: &mut SetGameStoreActive, active: bool) -> (r: Result<
    GameStoreActiveUpdated,
    ProgramError,
>)
    ensures
        match set_game_store_active_error(*old(accounts)) {
            Some(e) => r == Err::<GameStoreActiveUpdated, ProgramError>(e)
                && final(accounts).game_store_config == old(accounts).game_store_config,
            None => r == Ok::<GameStoreActiveUpdated, ProgramError>(
                GameStoreActiveUpdated { game: old(accounts).game.account().address, active },
            ) && final(accounts).game_store_config == (GameStoreConfig {
                active,
                ..old(accounts).game_store_config
            }),
        },
        final(accounts).publisher == old(accounts).publisher,
        final(accounts).authorized_source_program == old(accounts).authorized_source_program,
        final(accounts).game.account() == old(accounts).game.account(),
        final(accounts).registry_game.account() == old(accounts).registry_game.account(),
{
    if !accounts.authorized_source_program.active {
        return Err(ProgramError::Store(StoreError::SourceProgramNotAuthorized));
    }
    let game = accounts.game.address();
    if !keys_eq(&accounts.game_store_config.game, &game) {
        return Err(ProgramError::HasOneMismatch);
    }
    let publisher = accounts.game.publisher()?;
    if !keys_eq(&publisher, &accounts.publisher) {
        return Err(ProgramError::Store(StoreError::Unauthorized));
    }
    let registered = accounts.registry_game.game()?;
    if !keys_eq(&registered, &game) {
        return Err(ProgramError::Store(StoreError::RegistryGameMismatch));
    }
    assert_active_registry_game(&accounts.registry_game)?;
    accounts.game_store_config.active = active;
    Ok(GameStoreActiveUpdated { game, active })
}

} // verus!
