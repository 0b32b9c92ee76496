//! Changes the referral share that games without their own get.
use vstd::prelude::*;
use crate::address::{keys_eq, Address};
use crate::store::errors::{ProgramError, StoreError};
use crate::store::events::DefaultReferralUpdated;
use crate::store::state::StoreConfig;

verus! {

/// The accounts of `set_default_referral`: the signer and the configuration, which names
/// its authority.
pub struct SetDefaultReferral {
    pub authority: Address,
    pub store_config: StoreConfig,
}

/// The first check that `default_referral_bps` fails against the configuration, if any.
pub open spec fn set_default_referral_error(config: StoreConfig, default_referral_bps: u16) -> Option<StoreError> {
    if default_referral_bps > config.max_referral_bps {
        Some(StoreError::InvalidDefaultReferralBps)
    } else {
        None
    }
}

/// Sets the default referral share. Only the authority may; it is at most the maximum.
pub fn handler(accounts: &mut SetDefaultReferral, default_referral_bps: u16) -> (r: Result<DefaultReferralUpdated, ProgramError>)
    ensures
        old(accounts).store_config.authority@ != old(accounts).authority@ ==> r == Err::<
            DefaultReferralUpdated,
            ProgramError,
        >(ProgramError::HasOneMismatch),
        old(accounts).store_config.authority@ == old(accounts).authority@ ==> match set_default_referral_error(
            old(accounts).store_config,
            default_referral_bps,
        ) {
            Some(e) => r == Err::<DefaultReferralUpdated, ProgramError>(ProgramError::Store(e)),
            None => r == Ok::<DefaultReferralUpdated, ProgramError>(DefaultReferralUpdated { default_referral_bps })
                && final(accounts).store_config == (StoreConfig {
                default_referral_bps,
                ..old(accounts).store_config
            }),
        },
        r is Err ==> *final(accounts) == *old(accounts),
        final(accounts).authority == old(accounts).authority,
        old(accounts).store_config.valid() ==> final(accounts).store_config.valid(),
{
    if !keys_eq(&accounts.store_config.authority, &accounts.authority) {
        return Err(ProgramError::HasOneMismatch);
    }
    if default_referral_bps > accounts.store_config.max_referral_bps {
        return Err(ProgramError::Store(StoreError::InvalidDefaultReferralBps));
    }
    accounts.store_config.default_referral_bps = default_referral_bps;
    Ok(DefaultReferralUpdated { default_referral_bps })
}

} // verus!
