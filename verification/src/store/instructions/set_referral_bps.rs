//! Sets a game's own referral share.
use vstd::prelude::*;
use crate::address::{keys_eq, Address};
use crate::store::errors::{ProgramError, StoreError};
use crate::store::events::ReferralBpsUpdated;
use crate::store::external::{pgl_game_publisher, PglGame};
use crate::store::instructions::{read_option_u16, spec_read_option, spec_read_u16};
use crate::store::state::{AuthorizedProgram, GameStoreConfig, StoreConfig};

verus! {

/// The accounts of `set_referral_bps`.
pub struct SetReferralBps {
    pub publisher: Address,
    pub store_config: StoreConfig,
    pub authorized_source_program: AuthorizedProgram,
    pub game: PglGame,
    pub game_store_config: GameStoreConfig,
}

/// The share that the data asks for, with 0 meaning none.
pub open spec fn decode_referral_bps(data: Seq<u8>) -> Option<Option<u16>> {
    match spec_read_option(data, 0, |d: Seq<u8>, o: int| spec_read_u16(d, o)) {
        None => None,
        Some((v, _)) => Some(
            match v {
                None => None,
                Some(x) => if x == 0 {
                    None
                } else {
                    Some(x)
                },
            },
        ),
    }
}

/// Why `set_referral_bps` fails, if it does: account constraints, data,
/// publisher, then a share above the store's maximum.
pub open spec fn set_referral_bps_error(a: SetReferralBps, data: Seq<u8>) -> Option<ProgramError> {
    if !a.authorized_source_program.active {
        Some(ProgramError::Store(StoreError::SourceProgramNotAuthorized))
    } else if a.game_store_config.game@ != a.game.account().address@ {
        Some(ProgramError::HasOneMismatch)
    } else {
        match decode_referral_bps(data) {
            None => Some(ProgramError::InvalidInstructionData),
            Some(v) => if pgl_game_publisher(a.game.account().data@) != a.publisher@ {
                Some(ProgramError::Store(StoreError::Unauthorized))
            } else if v is Some && v->0 > a.store_config.max_referral_bps {
                Some(ProgramError::Store(StoreError::ReferralAboveMax))
            } else {
                None
            },
        }
    }
}

/// Sets the game's referral share; none (or 0) falls back to the store's
/// default. Only the game's publisher may, within the store's maximum.
pub fn handler(accounts: &mut SetReferralBps, data: &[u8]) -> (r: Result<
    ReferralBpsUpdated,
    ProgramError,
>)
    ensures
        match set_referral_bps_error(*old(accounts), data@) {
            Some(e) => r == Err::<ReferralBpsUpdated, ProgramError>(e)
                && final(accounts).game_store_config == old(accounts).game_store_config,
            None => {
                let v = decode_referral_bps(data@)->0;
                let cfg = final(accounts).game_store_config;
                let old_cfg = old(accounts).game_store_config;
                &&& cfg.referral_bps@ == v
                &&& cfg == (GameStoreConfig { referral_bps: cfg.referral_bps, ..old_cfg })
                &&& r == Ok::<ReferralBpsUpdated, ProgramError>(
                    ReferralBpsUpdated {
                        game: old(accounts).game.account().address,
                        referral_bps_present: v is Some,
                        referral_bps: if v is Some {
                            v->0
                        } else {
                            0
                        },
                    },
                )
            },
        },
        final(accounts).store_config == old(accounts).store_config,
        final(accounts).game.account() == old(accounts).game.account(),
{
    if !accounts.authorized_source_program.active {
        return Err(ProgramError::Store(StoreError::SourceProgramNotAuthorized));
    }
    let game = accounts.game.address();
    if !keys_eq(&accounts.game_store_config.game, &game) {
        return Err(ProgramError::HasOneMismatch);
    }
    let mut offset: usize = 0;
    let referral_bps = read_option_u16(data, &mut offset)?;
    let publisher = accounts.game.publisher()?;
    if !keys_eq(&publisher, &accounts.publisher) {
        return Err(ProgramError::Store(StoreError::Unauthorized));
    }
    let normalized = match referral_bps {
        None => None,
        Some(v) => if v == 0 {
            None
        } else {
            if v > accounts.store_config.max_referral_bps {
                return Err(ProgramError::Store(StoreError::ReferralAboveMax));
            }
            Some(v)
        },
    };
    accounts.game_store_config.referral_bps.set(normalized);
    Ok(
        ReferralBpsUpdated {
            game,
            referral_bps_present: normalized.is_some(),
            referral_bps: match normalized {
                Some(v) => v,
                None => 0,
            },
        },
    )
}

/// A game's own referral share, once set, is never 0 (0 stands for none)
/// and never above the store's maximum.
pub proof fn lemma_set_share_nonzero_within_max(a: SetReferralBps, data: Seq<u8>)
    requires
        set_referral_bps_error(a, data) is None,
    ensures
        decode_referral_bps(data) matches Some(Some(x)) ==> 0 < x <= a.store_config.max_referral_bps,
{
}

} // verus!
