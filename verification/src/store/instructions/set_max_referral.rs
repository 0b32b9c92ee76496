//! Changes the largest referral share a game may set.
use vstd::prelude::*;
use crate::address::{keys_eq, Address};
use crate::store::errors::{ProgramError, StoreError};
use crate::store::events::MaxReferralUpdated;
use crate::store::state::{StoreConfig, MAX_REFERRAL_BPS_HARD_CAP, PLATFORM_FEE_BPS_MAX};

verus! {

/// The accounts of `set_max_referral`: the signer and the configuration, which names
/// its authority.
pub struct SetMaxReferral {
    pub authority: Address,
    pub store_config: StoreConfig,
}

/// The first check that `max_referral_bps` fails against the configuration, if any.
pub open spec fn set_max_referral_error(config: StoreConfig, max_referral_bps: u16) -> Option<StoreError> {
    if max_referral_bps > MAX_REFERRAL_BPS_HARD_CAP {
        Some(StoreError::InvalidMaxReferralBps)
    } else if config.default_referral_bps > max_referral_bps {
        Some(StoreError::InvalidMaxReferralBps)
    } else if config.platform_fee_bps + max_referral_bps > PLATFORM_FEE_BPS_MAX {
        Some(StoreError::InvalidMaxReferralBps)
    } else {
        None
    }
}

/// Sets the maximum referral share. Only the authority may; it is at most 50%, at least the
/// default, and with the platform fee at most 100%.
pub fn handler(accounts: &mut SetMaxReferral, max_referral_bps: u16) -> (r: Result<MaxReferralUpdated, ProgramError>)
    ensures
        old(accounts).store_config.authority@ != old(accounts).authority@ ==> r == Err::<
            MaxReferralUpdated,
            ProgramError,
        >(ProgramError::HasOneMismatch),
        old(accounts).store_config.authority@ == old(accounts).authority@ ==> match set_max_referral_error(
            old(accounts).store_config,
            max_referral_bps,
        ) {
            Some(e) => r == Err::<MaxReferralUpdated, ProgramError>(ProgramError::Store(e)),
            None => r == Ok::<MaxReferralUpdated, ProgramError>(MaxReferralUpdated { max_referral_bps })
                && final(accounts).store_config == (StoreConfig {
                max_referral_bps,
                ..old(accounts).store_config
            }),
        },
        r is Err ==> *final(accounts) == *old(accounts),
        final(accounts).authority == old(accounts).authority,
        old(accounts).store_config.valid() ==> final(accounts).store_config.valid(),
{
    if !keys_eq(&accounts.store_config.authority, &accounts.authority) {
        return Err(ProgramError::HasOneMismatch);
    }
    if max_referral_bps > MAX_REFERRAL_BPS_HARD_CAP {
        return Err(ProgramError::Store(StoreError::InvalidMaxReferralBps));
    }
    if accounts.store_config.default_referral_bps > max_referral_bps {
        return Err(ProgramError::Store(StoreError::InvalidMaxReferralBps));
    }
    if (accounts.store_config.platform_fee_bps as u32 + max_referral_bps as u32)
        > PLATFORM_FEE_BPS_MAX as u32 {
        return Err(ProgramError::Store(StoreError::InvalidMaxReferralBps));
    }
    accounts.store_config.max_referral_bps = max_referral_bps;
    Ok(MaxReferralUpdated { max_referral_bps })
}

} // verus!
