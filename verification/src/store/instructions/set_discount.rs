//! Sets a game's discount and its window.
use vstd::prelude::*;
use crate::address::{keys_eq, Address};
use crate::store::errors::{ProgramError, StoreError};
use crate::store::events::DiscountSet;
use crate::store::external::{
    assert_active_registry_game, pgl_game_publisher, registry_game_game, registry_game_status,
    PglGame, RegistryGame, RegistryGameStatus,
};
use crate::store::instructions::{
    read_option_i64, read_option_u16, spec_read_i64, spec_read_option, spec_read_u16,
};
use crate::store::state::{AuthorizedProgram, GameStoreConfig};

verus! {

/// The accounts of `set_discount`.
pub struct SetDiscount {
    pub publisher: Address,
    pub authorized_source_program: AuthorizedProgram,
    pub game: PglGame,
    pub registry_game: RegistryGame,
    pub game_store_config: GameStoreConfig,
}

/// The arguments that the instruction data holds: an optional discount,
/// an optional start and an optional end.
pub open spec fn decode_set_discount(data: Seq<u8>) -> Option<(Option<u16>, Option<i64>, Option<i64>)> {
    match spec_read_option(data, 0, |d: Seq<u8>, o: int| spec_read_u16(d, o)) {
        None => None,
        Some((bps, n1)) => match spec_read_option(data, n1, |d: Seq<u8>, o: int| spec_read_i64(d, o)) {
            None => None,
            Some((start, n2)) => match spec_read_option(
                data,
                n2,
                |d: Seq<u8>, o: int| spec_read_i64(d, o),
            ) {
                None => None,
                Some((end, _)) => Some((bps, start, end)),
            },
        },
    }
}

/// Why `set_discount` fails, if it does: account constraints, data,
/// publisher, registry, then the discount (at most 100%) and its window
/// (start before end, where both are set).
pub open spec fn set_discount_error(a: SetDiscount, data: Seq<u8>) -> Option<ProgramError> {
    let game = a.game.account().address@;
    if !a.authorized_source_program.active {
        Some(ProgramError::Store(StoreError::SourceProgramNotAuthorized))
    } else if a.game_store_config.game@ != game {
        Some(ProgramError::HasOneMismatch)
    } else {
        match decode_set_discount(data) {
            None => Some(ProgramError::InvalidInstructionData),
            Some((bps, start, end)) => if pgl_game_publisher(a.game.account().data@) != a.publisher@ {
                Some(ProgramError::Store(StoreError::Unauthorized))
            } else if registry_game_game(a.registry_game.account().data@) != game {
                Some(ProgramError::Store(StoreError::RegistryGameMismatch))
            } else if registry_game_status(a.registry_game.account().data@)
                != RegistryGameStatus::Active {
                Some(ProgramError::Store(StoreError::GameNotActive))
            } else if bps is Some && bps->0 > 10_000 {
                Some(ProgramError::Store(StoreError::InvalidDiscountBps))
            } else if start is Some && end is Some && start->0 >= end->0 {
                Some(ProgramError::Store(StoreError::InvalidDiscountWindow))
            } else {
                None
            },
        }
    }
}

/// Sets the game's discount, start and end as the data gives them (an
/// absent one is cleared).
pub fn handler(accounts: &mut SetDiscount, data: &[u8]) -> (r: Result<DiscountSet, ProgramError>)
    ensures
        match set_discount_error(*old(accounts), data@) {
            Some(e) => r == Err::<DiscountSet, ProgramError>(e)
                && final(accounts).game_store_config == old(accounts).game_store_config,
            None => {
                let (bps, start, end) = decode_set_discount(data@)->0;
                let cfg = final(accounts).game_store_config;
                let old_cfg = old(accounts).game_store_config;
                &&& cfg.discount_bps@ == bps
                &&& cfg.discount_starts_at@ == start
                &&& cfg.discount_expires_at@ == end
                &&& cfg.game == old_cfg.game
                &&& cfg.active == old_cfg.active
                &&& cfg.referral_bps == old_cfg.referral_bps
                &&& cfg.bump == old_cfg.bump
                &&& r == Ok::<DiscountSet, ProgramError>(
                    DiscountSet {
                        game: old_cfg.game,
                        discount_bps_present: bps is Some,
                        discount_bps: if bps is Some {
                            bps->0
                        } else {
                            0
                        },
                        discount_starts_at_present: start is Some,
                        discount_starts_at: if start is Some {
                            start->0
                        } else {
                            0
                        },
                        discount_expires_at_present: end is Some,
                        discount_expires_at: if end is Some {
                            end->0
                        } else {
                            0
                        },
                    },
                )
            },
        },
        final(accounts).game.account() == old(accounts).game.account(),
{
    if !accounts.authorized_source_program.active {
        return Err(ProgramError::Store(StoreError::SourceProgramNotAuthorized));
    }
    let game = accounts.game.address();
    if !keys_eq(&accounts.game_store_config.game, &game) {
        return Err(ProgramError::HasOneMismatch);
    }
    let mut offset: usize = 0;
    let discount_bps = read_option_u16(data, &mut offset)?;
    let discount_starts_at = read_option_i64(data, &mut offset)?;
    let discount_expires_at = read_option_i64(data, &mut offset)?;
    let publisher = accounts.game.publisher()?;
    if !keys_eq(&publisher, &accounts.publisher) {
        return Err(ProgramError::Store(StoreError::Unauthorized));
    }
    let registered = accounts.registry_game.game()?;
    if !keys_eq(&registered, &game) {
        return Err(ProgramError::Store(StoreError::RegistryGameMismatch));
    }
    assert_active_registry_game(&accounts.registry_game)?;
    if let Some(bps) = discount_bps {
        if bps > 10_000 {
            return Err(ProgramError::Store(StoreError::InvalidDiscountBps));
        }
    }
    if let (Some(start), Some(end)) = (discount_starts_at, discount_expires_at) {
        if start >= end {
            return Err(ProgramError::Store(StoreError::InvalidDiscountWindow));
        }
    }
    accounts.game_store_config.discount_bps.set(discount_bps);
    accounts.game_store_config.discount_starts_at.set(discount_starts_at);
    accounts.game_store_config.discount_expires_at.set(discount_expires_at);
    Ok(
        DiscountSet {
            game: accounts.game_store_config.game,
            discount_bps_present: discount_bps.is_some(),
            discount_bps: match discount_bps {
                Some(v) => v,
                None => 0,
            },
            discount_starts_at_present: discount_starts_at.is_some(),
            discount_starts_at: match discount_starts_at {
                Some(v) => v,
                None => 0,
            },
            discount_expires_at_present: discount_expires_at.is_some(),
            discount_expires_at: match discount_expires_at {
                Some(v) => v,
                None => 0,
            },
        },
    )
}

/// `set_discount` refuses a window only where both its start and its end
/// are given and the start is not before the end; a start without an end
/// (or an end without a start) is an open window, not a refused one.
pub proof fn lemma_window_refused_only_when_inverted(a: SetDiscount, data: Seq<u8>)
    ensures
        set_discount_error(a, data) == Some(ProgramError::Store(StoreError::InvalidDiscountWindow))
            ==> (decode_set_discount(data) matches Some((_, Some(start), Some(end))) && start >= end),
{
}

/// The data holds, in order, an optional discount (tag, two little-endian
/// bytes), an optional start and an optional end (tag, eight
/// little-endian bytes each): an open-ended window decodes with its start
/// and no end.
pub proof fn lemma_open_ended_window_decodes(data: Seq<u8>)
    requires
        data.len() == 14,
        data[0] == 1,
        data[3] == 1,
        data[12] == 0,
    ensures
        decode_set_discount(data) == Some(
            (
                Some(crate::le::le_u16(data.subrange(1, 3)) as u16),
                Some(crate::le::le_i64(data.subrange(4, 12)) as i64),
                None::<i64>,
            ),
        ),
{
}

/// A discount cannot be set on a game that the registry does not hold
/// active, nor above 100%.
pub proof fn lemma_discount_needs_active_game_and_valid_bps(a: SetDiscount, data: Seq<u8>)
    ensures
        registry_game_status(a.registry_game.account().data@) != RegistryGameStatus::Active ==> set_discount_error(a, data) is Some,
        decode_set_discount(data) matches Some((Some(bps), _, _)) && bps > 10_000 ==> set_discount_error(a, data) is Some,
{
}

} // verus!
