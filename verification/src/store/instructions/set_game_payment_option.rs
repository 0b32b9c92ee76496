//! Prices a game in an accepted mint.
use vstd::prelude::*;
use crate::address::{keys_eq, zero_bytes, Address};
use crate::store::errors::{ProgramError, StoreError};
use crate::store::events::GamePaymentOptionSet;
use crate::store::external::{
    assert_active_registry_game, pgl_game_publisher, registry_game_game, registry_game_status,
    PglGame, RegistryGame, RegistryGameStatus,
};
use crate::store::state::{
    AcceptedPaymentToken, AuthorizedProgram, GamePaymentOption, GameStoreConfig, ROLE_REGISTRY,
    ROLE_SOURCE,
};

verus! {

/// The accounts of `set_game_payment_option`. The payment option is the
/// existing record, or a zeroed one where it is new.
pub struct SetGamePaymentOption {
    pub payer: Address,
    pub publisher: Option<Address>,
    pub authorized_source_program: AuthorizedProgram,
    pub authorized_registry_program: AuthorizedProgram,
    pub game: PglGame,
    pub registry_game: RegistryGame,
    pub game_store_config: GameStoreConfig,
    pub mint: Address,
    pub accepted_payment_token: AcceptedPaymentToken,
    pub game_payment_option: GamePaymentOption,
    pub game_payment_option_bump: u8,
}

/// Why `set_game_payment_option` fails, if it does.
pub open spec fn set_game_payment_option_error(a: SetGamePaymentOption, base_price: u64) -> Option<
    ProgramError,
> {
    let game = a.game.account().address@;
    if !a.authorized_source_program.active {
        Some(ProgramError::Store(StoreError::SourceProgramNotAuthorized))
    } else if a.authorized_source_program.role != ROLE_SOURCE {
        Some(ProgramError::Store(StoreError::InsufficientRole))
    } else if !a.authorized_registry_program.active {
        Some(ProgramError::Store(StoreError::RegistryProgramNotAuthorized))
    } else if a.authorized_registry_program.role < ROLE_REGISTRY {
        Some(ProgramError::Store(StoreError::InsufficientRole))
    } else if a.game_store_config.game@ != game {
        Some(ProgramError::HasOneMismatch)
    } else if !a.accepted_payment_token.active {
        Some(ProgramError::Store(StoreError::PaymentTokenDisabled))
    } else if base_price == 0 {
        Some(ProgramError::Store(StoreError::InvalidPrice))
    } else if a.publisher is Some && a.publisher->0@ != pgl_game_publisher(a.game.account().data@) {
        Some(ProgramError::Store(StoreError::Unauthorized))
    } else if registry_game_game(a.registry_game.account().data@) != game {
        Some(ProgramError::Store(StoreError::RegistryGameMismatch))
    } else if registry_game_status(a.registry_game.account().data@) != RegistryGameStatus::Active {
        Some(ProgramError::Store(StoreError::GameNotActive))
    } else if !a.game_store_config.active {
        Some(ProgramError::Store(StoreError::StoreGameInactive))
    } else if a.accepted_payment_token.mint@ != a.mint@ {
        Some(ProgramError::Store(StoreError::PaymentTokenNotAllowed))
    } else if a.game_payment_option.game@ != zero_bytes() && a.game_payment_option.game@ != game {
        Some(ProgramError::Store(StoreError::GamePaymentOptionMismatch))
    } else {
        None
    }
}

/// Sets the game's price in the mint, and whether it may be paid with.
/// The publisher, or the registry, may; the game must be registered and
/// active, on sale, and the mint accepted.
pub fn handler(accounts: &mut SetGamePaymentOption, base_price: u64, active: bool) -> (r: Result<
    GamePaymentOptionSet,
    ProgramError,
>)
    ensures
        match set_game_payment_option_error(*old(accounts), base_price) {
            Some(e) => r == Err::<GamePaymentOptionSet, ProgramError>(e)
                && final(accounts).game_payment_option == old(accounts).game_payment_option,
            None => r == Ok::<GamePaymentOptionSet, ProgramError>(
                GamePaymentOptionSet {
                    game: old(accounts).game.account().address,
                    mint: old(accounts).mint,
                    base_price,
                    active,
                },
            ) && final(accounts).game_payment_option == (GamePaymentOption {
                game: old(accounts).game.account().address,
                mint: old(accounts).mint,
                base_price,
                active,
                bump: old(accounts).game_payment_option_bump,
            }),
        },
        final(accounts).game_store_config == old(accounts).game_store_config,
        final(accounts).accepted_payment_token == old(accounts).accepted_payment_token,
        final(accounts).game.account() == old(accounts).game.account(),
{
    if !accounts.authorized_source_program.active {
        return Err(ProgramError::Store(StoreError::SourceProgramNotAuthorized));
    }
    if accounts.authorized_source_program.role != ROLE_SOURCE {
        return Err(ProgramError::Store(StoreError::InsufficientRole));
    }
    if !accounts.authorized_registry_program.active {
        return Err(ProgramError::Store(StoreError::RegistryProgramNotAuthorized));
    }
    if accounts.authorized_registry_program.role < ROLE_REGISTRY {
        return Err(ProgramError::Store(StoreError::InsufficientRole));
    }
    let game = accounts.game.address();
    if !keys_eq(&accounts.game_store_config.game, &game) {
        return Err(ProgramError::HasOneMismatch);
    }
    if !accounts.accepted_payment_token.active {
        return Err(ProgramError::Store(StoreError::PaymentTokenDisabled));
    }
    if base_price == 0 {
        return Err(ProgramError::Store(StoreError::InvalidPrice));
    }
    let publisher_key = accounts.game.publisher()?;
    match accounts.publisher {
        Some(p) => {
            if !keys_eq(&p, &publisher_key) {
                return Err(ProgramError::Store(StoreError::Unauthorized));
            }
        },
        None => {
            if accounts.authorized_registry_program.role < ROLE_REGISTRY {
                return Err(ProgramError::Store(StoreError::InsufficientRole));
            }
        },
    }
    let registered = accounts.registry_game.game()?;
    if !keys_eq(&registered, &game) {
        return Err(ProgramError::Store(StoreError::RegistryGameMismatch));
    }
    assert_active_registry_game(&accounts.registry_game)?;
    if !accounts.game_store_config.active {
        return Err(ProgramError::Store(StoreError::StoreGameInactive));
    }
    if !keys_eq(&accounts.accepted_payment_token.mint, &accounts.mint) {
        return Err(ProgramError::Store(StoreError::PaymentTokenNotAllowed));
    }
    if !accounts.game_payment_option.game.is_zero() {
        if !keys_eq(&accounts.game_payment_option.game, &game) {
            return Err(ProgramError::Store(StoreError::GamePaymentOptionMismatch));
        }
    }
    accounts.game_payment_option = GamePaymentOption {
        game,
        mint: accounts.mint,
        base_price,
        active,
        bump: accounts.game_payment_option_bump,
    };
    Ok(GamePaymentOptionSet { game, mint: accounts.mint, base_price, active })
}

/// A game that the registry does not hold active (suspended, banned or
/// unknown) cannot be priced: `set_game_payment_option` then always fails.
pub proof fn lemma_inactive_game_not_priced(a: SetGamePaymentOption, base_price: u64)
    requires
        registry_game_status(a.registry_game.account().data@) != RegistryGameStatus::Active,
    ensures
        set_game_payment_option_error(a, base_price) is Some,
{
}

/// A game cannot be priced at zero.
pub proof fn lemma_zero_price_refused(a: SetGamePaymentOption)
    ensures
        set_game_payment_option_error(a, 0) is Some,
{
}

} // verus!
