//! Ends a game's discount.
use vstd::prelude::*;
use crate::address::{keys_eq, Address};
use crate::store::errors::{ProgramError, StoreError};
use crate::store::events::DiscountCleared;
use crate::store::external::{pgl_game_publisher, PglGame};
use crate::store::instructions::buy_game::final_price_of;
use crate::store::state::{AuthorizedProgram, GameStoreConfig};

verus! {

/// The accounts of `clear_discount`.
pub struct ClearDiscount {
    pub publisher: Address,
    pub authorized_source_program: AuthorizedProgram,
    pub game: PglGame,
    pub game_store_config: GameStoreConfig,
}

/// Why `clear_discount` fails, if it does.
pub open spec fn clear_discount_error(a: ClearDiscount) -> Option<ProgramError> {
    if !a.authorized_source_program.active {
        Some(ProgramError::Store(StoreError::SourceProgramNotAuthorized))
    } else if a.game_store_config.game@ != a.game.account().address@ {
        Some(ProgramError::HasOneMismatch)
    } else if pgl_game_publisher(a.game.account().data@) != a.publisher@ {
        Some(ProgramError::Store(StoreError::Unauthorized))
    } else {
        None
    }
}

/// Clears the game's discount, start and end. Only the game's publisher
/// may.
pub fn handler(accounts: &mut ClearDiscount) -> (r: Result<DiscountCleared, ProgramError>)
    ensures
        match clear_discount_error(*old(accounts)) {
            Some(e) => r == Err::<DiscountCleared, ProgramError>(e)
                && final(accounts).game_store_config == old(accounts).game_store_config,
            None => {
                let cfg = final(accounts).game_store_config;
                let old_cfg = old(accounts).game_store_config;
                &&& cfg.discount_bps@ == None::<u16>
                &&& cfg.discount_starts_at@ == None::<i64>
                &&& cfg.discount_expires_at@ == None::<i64>
                &&& cfg.game == old_cfg.game
                &&& cfg.active == old_cfg.active
                &&& cfg.referral_bps == old_cfg.referral_bps
                &&& cfg.bump == old_cfg.bump
                &&& r == Ok::<DiscountCleared, ProgramError>(DiscountCleared { game: old_cfg.game })
            },
        },
        final(accounts).game.account() == old(accounts).game.account(),
{
    if !accounts.authorized_source_program.active {
        return Err(ProgramError::Store(StoreError::SourceProgramNotAuthorized));
    }
    let game = accounts.game.address();
    if !keys_eq(&accounts.game_store_config.game, &game) {
        return Err(ProgramError::HasOneMismatch);
    }
    let publisher = accounts.game.publisher()?;
    if !keys_eq(&publisher, &accounts.publisher) {
        return Err(ProgramError::Store(StoreError::Unauthorized));
    }
    accounts.game_store_config.discount_bps.set(None);
    accounts.game_store_config.discount_starts_at.set(None);
    accounts.game_store_config.discount_expires_at.set(None);
    Ok(DiscountCleared { game: accounts.game_store_config.game })
}

/// Once `clear_discount` has cleared a game's discount, start and end,
/// every purchase of the game is priced at its base price, whatever the
/// price and the time.
pub proof fn lemma_cleared_discount_pays_base(cfg: GameStoreConfig, base_price: u64, now: i64)
    requires
        cfg.discount_bps@ == None::<u16>,
        cfg.discount_starts_at@ == None::<i64>,
        cfg.discount_expires_at@ == None::<i64>,
    ensures
        final_price_of(base_price, cfg.discount_bps@, cfg.discount_starts_at@, cfg.discount_expires_at@, now)
            == Ok::<u64, StoreError>(base_price),
{
}

} // verus!
