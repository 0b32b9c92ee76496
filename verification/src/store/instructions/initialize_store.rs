//! Creates the store's configuration.
use vstd::prelude::*;
use crate::address::{zero_bytes, Address};
use crate::store::errors::{ProgramError, StoreError};
use crate::store::events::StoreInitialized;
use crate::store::state::{StoreConfig, MAX_REFERRAL_BPS_HARD_CAP, PLATFORM_FEE_BPS_MAX};

verus! {

/// The accounts of `initialize_store`: the signing authority and the bump
/// of the new configuration account.
pub struct InitializeStore {
    pub authority: Address,
    pub store_config_bump: u8,
}

/// The first check that the arguments of `initialize_store` fail, in the
/// order in which the instruction makes them.
pub open spec fn initialize_store_error(
    treasury: Seq<u8>,
    platform_fee_bps: u16,
    default_referral_bps: u16,
    max_referral_bps: u16,
    store_actor: Seq<u8>,
) -> Option<StoreError> {
    if treasury == zero_bytes() {
        Some(StoreError::InvalidTreasury)
    } else if store_actor == zero_bytes() {
        Some(StoreError::InvalidStoreActor)
    } else if platform_fee_bps > PLATFORM_FEE_BPS_MAX {
        Some(StoreError::InvalidPlatformFeeBps)
    } else if max_referral_bps > MAX_REFERRAL_BPS_HARD_CAP {
        Some(StoreError::InvalidMaxReferralBps)
    } else if default_referral_bps > max_referral_bps {
        Some(StoreError::InvalidDefaultReferralBps)
    } else if platform_fee_bps + max_referral_bps > PLATFORM_FEE_BPS_MAX {
        Some(StoreError::InvalidMaxReferralBps)
    } else {
        None
    }
}

/// Validates the store's settings and writes its configuration, with the
/// signer as authority.
pub fn handler(
    accounts: &InitializeStore,
    treasury: Address,
    platform_fee_bps: u16,
    default_referral_bps: u16,
    max_referral_bps: u16,
    store_actor: Address,
) -> (r: Result<(StoreConfig, StoreInitialized), ProgramError>)
    ensures
        match initialize_store_error(
            treasury@,
            platform_fee_bps,
            default_referral_bps,
            max_referral_bps,
            store_actor@,
        ) {
            Some(e) => r == Err::<(StoreConfig, StoreInitialized), ProgramError>(ProgramError::Store(e)),
            None => r == Ok::<(StoreConfig, StoreInitialized), ProgramError>((
                StoreConfig {
                    authority: accounts.authority,
                    treasury,
                    platform_fee_bps,
                    default_referral_bps,
                    max_referral_bps,
                    store_actor,
                    bump: accounts.store_config_bump,
                },
                StoreInitialized { authority: accounts.authority, treasury },
            )),
        },
        r matches Ok((c, _)) ==> c.valid(),
{
    if treasury.is_zero() {
        return Err(ProgramError::Store(StoreError::InvalidTreasury));
    }
    if store_actor.is_zero() {
        return Err(ProgramError::Store(StoreError::InvalidStoreActor));
    }
    if platform_fee_bps > PLATFORM_FEE_BPS_MAX {
        return Err(ProgramError::Store(StoreError::InvalidPlatformFeeBps));
    }
    if max_referral_bps > MAX_REFERRAL_BPS_HARD_CAP {
        return Err(ProgramError::Store(StoreError::InvalidMaxReferralBps));
    }
    if default_referral_bps > max_referral_bps {
        return Err(ProgramError::Store(StoreError::InvalidDefaultReferralBps));
    }
    if (platform_fee_bps as u32 + max_referral_bps as u32) > PLATFORM_FEE_BPS_MAX as u32 {
        return Err(ProgramError::Store(StoreError::InvalidMaxReferralBps));
    }
    let config = StoreConfig {
        authority: accounts.authority,
        treasury,
        platform_fee_bps,
        default_referral_bps,
        max_referral_bps,
        store_actor,
        bump: accounts.store_config_bump,
    };
    Ok((config, StoreInitialized { authority: accounts.authority, treasury }))
}

} // verus!
