//! Changes the platform fee.
use vstd::prelude::*;
use crate::address::{keys_eq, Address};
use crate::store::errors::{ProgramError, StoreError};
use crate::store::events::PlatformFeeUpdated;
use crate::store::state::{StoreConfig, PLATFORM_FEE_BPS_MAX};

verus! {

/// The accounts of `set_platform_fee`: the signer and the configuration, which names
/// its authority.
pub struct SetPlatformFee {
    pub authority: Address,
    pub store_config: StoreConfig,
}

/// The first check that `platform_fee_bps` fails against the configuration, if any.
pub open spec fn set_platform_fee_error(config: StoreConfig, platform_fee_bps: u16) -> Option<StoreError> {
    if platform_fee_bps > PLATFORM_FEE_BPS_MAX {
        Some(StoreError::InvalidPlatformFeeBps)
    } else if platform_fee_bps + config.max_referral_bps > PLATFORM_FEE_BPS_MAX {
        Some(StoreError::InvalidPlatformFeeBps)
    } else {
        None
    }
}

/// Sets the platform fee. Only the authority may; the fee is at most 100%, and with the
/// maximum referral at most 100%.
pub fn handler(accounts: &mut SetPlatformFee, platform_fee_bps: u16) -> (r: Result<PlatformFeeUpdated, ProgramError>)
    ensures
        old(accounts).store_config.authority@ != old(accounts).authority@ ==> r == Err::<
            PlatformFeeUpdated,
            ProgramError,
        >(ProgramError::HasOneMismatch),
        old(accounts).store_config.authority@ == old(accounts).authority@ ==> match set_platform_fee_error(
            old(accounts).store_config,
            platform_fee_bps,
        ) {
            Some(e) => r == Err::<PlatformFeeUpdated, ProgramError>(ProgramError::Store(e)),
            None => r == Ok::<PlatformFeeUpdated, ProgramError>(PlatformFeeUpdated { platform_fee_bps })
                && final(accounts).store_config == (StoreConfig {
                platform_fee_bps,
                ..old(accounts).store_config
            }),
        },
        r is Err ==> *final(accounts) == *old(accounts),
        final(accounts).authority == old(accounts).authority,
        old(accounts).store_config.valid() ==> final(accounts).store_config.valid(),
{
    if !keys_eq(&accounts.store_config.authority, &accounts.authority) {
        return Err(ProgramError::HasOneMismatch);
    }
    if platform_fee_bps > PLATFORM_FEE_BPS_MAX {
        return Err(ProgramError::Store(StoreError::InvalidPlatformFeeBps));
    }
    if (platform_fee_bps as u32 + accounts.store_config.max_referral_bps as u32)
        > PLATFORM_FEE_BPS_MAX as u32 {
        return Err(ProgramError::Store(StoreError::InvalidPlatformFeeBps));
    }
    accounts.store_config.platform_fee_bps = platform_fee_bps;
    Ok(PlatformFeeUpdated { platform_fee_bps })
}

} // verus!
