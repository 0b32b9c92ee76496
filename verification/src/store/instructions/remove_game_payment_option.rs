//! Withdraws a game's price in a mint.
use vstd::prelude::*;
use crate::address::{keys_eq, Address};
use crate::store::errors::{ProgramError, StoreError};
use crate::store::events::GamePaymentOptionRemoved;
use crate::store::external::{pgl_game_publisher, PglGame};
use crate::store::state::{AuthorizedProgram, GamePaymentOption};

verus! {

/// The accounts of `remove_game_payment_option`.
pub struct RemoveGamePaymentOption {
    pub publisher: Address,
    pub authorized_source_program: AuthorizedProgram,
    pub game: PglGame,
    pub mint: Address,
    pub game_payment_option: GamePaymentOption,
}

/// Why `remove_game_payment_option` fails, if it does.
pub open spec fn remove_game_payment_option_error(a: RemoveGamePaymentOption) -> Option<
    ProgramError,
> {
    if !a.authorized_source_program.active {
        Some(ProgramError::Store(StoreError::SourceProgramNotAuthorized))
    } else if a.game_payment_option.game@ != a.game.account().address@ {
        Some(ProgramError::HasOneMismatch)
    } else if pgl_game_publisher(a.game.account().data@) != a.publisher@ {
        Some(ProgramError::Store(StoreError::Unauthorized))
    } else if a.game_payment_option.mint@ != a.mint@ {
        Some(ProgramError::Store(StoreError::PaymentTokenNotAllowed))
    } else {
        None
    }
}

/// Checks that the game's publisher removes the option of that mint; on
/// success the runtime closes the record and refunds the publisher.
pub fn handler(accounts: &RemoveGamePaymentOption) -> (r: Result<
    GamePaymentOptionRemoved,
    ProgramError,
>)
    ensures
        match remove_game_payment_option_error(*accounts) {
            Some(e) => r == Err::<GamePaymentOptionRemoved, ProgramError>(e),
            None => r == Ok::<GamePaymentOptionRemoved, ProgramError>(
                GamePaymentOptionRemoved {
                    game: accounts.game.account().address,
                    mint: accounts.mint,
                },
            ),
        },
{
    if !accounts.authorized_source_program.active {
        return Err(ProgramError::Store(StoreError::SourceProgramNotAuthorized));
    }
    let game = accounts.game.address();
    if !keys_eq(&accounts.game_payment_option.game, &game) {
        return Err(ProgramError::HasOneMismatch);
    }
    let publisher = accounts.game.publisher()?;
    if !keys_eq(&publisher, &accounts.publisher) {
        return Err(ProgramError::Store(StoreError::Unauthorized));
    }
    if !keys_eq(&accounts.game_payment_option.mint, &accounts.mint) {
        return Err(ProgramError::Store(StoreError::PaymentTokenNotAllowed));
    }
    Ok(GamePaymentOptionRemoved { game, mint: accounts.mint })
}

} // verus!
