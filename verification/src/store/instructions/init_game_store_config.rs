//! Opens a game for sale in the store.
use vstd::prelude::*;
use crate::address::{address_bytes, keys_eq, Address};
use crate::derive::{derived_address, find_program_address};
use crate::store::errors::{ProgramError, StoreError};
use crate::store::events::GameStoreConfigInitialized;
use crate::store::external::{pgl_game_publisher, AccountView, PglGame};
use crate::store::instructions::buy_game::seeds2;
use crate::store::state::{
    AuthorizedProgram, GameStoreConfig, OptionI64, OptionU16, ROLE_REGISTRY, ROLE_SOURCE,
};

verus! {

/// The accounts of `init_game_store_config`. Either the game's publisher
/// signs, or the call comes through the registry.
pub struct InitGameStoreConfig {
    pub payer: Address,
    pub publisher: Option<Address>,
    pub source_program: Address,
    pub authorized_source_program: AuthorizedProgram,
    pub registry_program: Address,
    pub authorized_registry_program: AuthorizedProgram,
    pub game: PglGame,
    pub registry_game: AccountView,
    pub game_store_config_bump: u8,
}

/// Seed of the registry's game records: "registry_game".
pub open spec fn registry_game_seed() -> Seq<u8> {
    seq![114u8, 101, 103, 105, 115, 116, 114, 121, 95, 103, 97, 109, 101]
}

fn registry_game_seed_vec() -> (v: Vec<u8>)
    ensures
        v@ == registry_game_seed(),
{
    let v = vec![114u8, 101, 103, 105, 115, 116, 114, 121, 95, 103, 97, 109, 101];
    assert(v@ =~= registry_game_seed());
    v
}

/// Why `init_game_store_config` fails, if it does: the trusted programs
/// must be active in their roles, the registry record must be the
/// registry's, the signer must be the game's publisher, and the record must
/// sit at the registry's address for the game.
pub open spec fn init_game_store_config_error(
    a: InitGameStoreConfig,
    expected_registry_game: Option<Seq<u8>>,
) -> Option<ProgramError> {
    let game = a.game.account().address@;
    if !a.authorized_source_program.active {
        Some(ProgramError::Store(StoreError::SourceProgramNotAuthorized))
    } else if a.authorized_source_program.role != ROLE_SOURCE {
        Some(ProgramError::Store(StoreError::InsufficientRole))
    } else if !a.authorized_registry_program.active {
        Some(ProgramError::Store(StoreError::RegistryProgramNotAuthorized))
    } else if a.authorized_registry_program.role < ROLE_REGISTRY {
        Some(ProgramError::Store(StoreError::InsufficientRole))
    } else if a.registry_game.owner@ != a.registry_program@ {
        Some(ProgramError::Store(StoreError::RegistryProgramNotAuthorized))
    } else if a.publisher is Some && a.publisher->0@ != pgl_game_publisher(a.game.account().data@) {
        Some(ProgramError::Store(StoreError::Unauthorized))
    } else {
        match expected_registry_game {
            None => Some(ProgramError::NoViableBump),
            Some(expected) => if a.registry_game.address@ != expected {
                Some(ProgramError::Store(StoreError::RegistryGameMismatch))
            } else {
                None
            },
        }
    }
}

/// The registry's address for the game's record.
pub open spec fn registry_game_address_of(a: InitGameStoreConfig) -> Option<Seq<u8>> {
    derived_address(seq![registry_game_seed(), a.game.account().address@], a.registry_program@)
}

/// Creates the game's sale settings: active as asked, with no referral
/// share and no discount of its own.
pub fn handler(accounts: &InitGameStoreConfig, active: bool) -> (r: Result<
    (GameStoreConfig, GameStoreConfigInitialized),
    ProgramError,
>)
    ensures
        match init_game_store_config_error(*accounts, registry_game_address_of(*accounts)) {
            Some(e) => r matches Err(x) && x == e,
            None => r matches Ok((cfg, event)) && cfg.game == accounts.game.account().address
                && cfg.active == active && cfg.referral_bps@ == None::<u16> && cfg.discount_bps@
                == None::<u16> && cfg.discount_starts_at@ == None::<i64> && cfg.discount_expires_at@
                == None::<i64> && cfg.bump == accounts.game_store_config_bump && event == (
            GameStoreConfigInitialized { game: cfg.game, active }),
        },
{
    let seeds = seeds2(registry_game_seed_vec(), accounts.game.address().to_vec());
    let expected = match find_program_address(&seeds, &accounts.registry_program) {
        None => None,
        Some((k, _)) => Some(k),
    };
    open_for_sale(accounts, active, expected)
}

/// The work of `handler`, given the registry's address for the game's
/// record (`None` where none was found).
pub fn open_for_sale(accounts: &InitGameStoreConfig, active: bool, expected_registry_game: Option<Address>) -> (r:
    Result<(GameStoreConfig, GameStoreConfigInitialized), ProgramError>)
    ensures
        match init_game_store_config_error(*accounts, address_bytes(expected_registry_game)) {
            Some(e) => r matches Err(x) && x == e,
            None => r matches Ok((cfg, event)) && cfg.game == accounts.game.account().address
                && cfg.active == active && cfg.referral_bps@ == None::<u16> && cfg.discount_bps@
                == None::<u16> && cfg.discount_starts_at@ == None::<i64> && cfg.discount_expires_at@
                == None::<i64> && cfg.bump == accounts.game_store_config_bump && event == (
            GameStoreConfigInitialized { game: cfg.game, active }),
        },
{
    if !accounts.authorized_source_program.active {
        return Err(ProgramError::Store(StoreError::SourceProgramNotAuthorized));
    }
    if accounts.authorized_source_program.role != ROLE_SOURCE {
        return Err(ProgramError::Store(StoreError::InsufficientRole));
    }
    if !accounts.authorized_registry_program.active {
        return Err(ProgramError::Store(StoreError::RegistryProgramNotAuthorized));
    }
    if accounts.authorized_registry_program.role < ROLE_REGISTRY {
        return Err(ProgramError::Store(StoreError::InsufficientRole));
    }
    if !keys_eq(&accounts.registry_game.owner, &accounts.registry_program) {
        return Err(ProgramError::Store(StoreError::RegistryProgramNotAuthorized));
    }
    let publisher_key = accounts.game.publisher()?;
    match accounts.publisher {
        Some(p) => {
            if !keys_eq(&p, &publisher_key) {
                return Err(ProgramError::Store(StoreError::Unauthorized));
            }
        },
        None => {
            if accounts.authorized_registry_program.role < ROLE_REGISTRY {
                return Err(ProgramError::Store(StoreError::InsufficientRole));
            }
        },
    }
    let game = accounts.game.address();
    let expected = match expected_registry_game {
        None => return Err(ProgramError::NoViableBump),
        Some(k) => k,
    };
    if !keys_eq(&accounts.registry_game.address, &expected) {
        return Err(ProgramError::Store(StoreError::RegistryGameMismatch));
    }
    let cfg = GameStoreConfig {
        game,
        active,
        referral_bps: OptionU16::none(),
        discount_bps: OptionU16::none(),
        discount_starts_at: OptionI64::none(),
        discount_expires_at: OptionI64::none(),
        bump: accounts.game_store_config_bump,
    };
    Ok((cfg, GameStoreConfigInitialized { game, active }))
}

} // verus!
