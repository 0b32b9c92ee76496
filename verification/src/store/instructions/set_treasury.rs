//! Changes where platform fees go.
use vstd::prelude::*;
use crate::address::{keys_eq, zero_bytes, Address};
use crate::store::errors::{ProgramError, StoreError};
use crate::store::events::TreasuryUpdated;
use crate::store::state::StoreConfig;

verus! {

/// The accounts of `set_treasury`: the signer and the configuration, which
/// names its authority.
pub struct SetTreasury {
    pub authority: Address,
    pub store_config: StoreConfig,
}

/// Sets the treasury. Only the configuration's authority may, and the
/// treasury may not be the zero address.
pub fn handler(accounts: &mut SetTreasury, treasury: Address) -> (r: Result<
    TreasuryUpdated,
    ProgramError,
>)
    ensures
        old(accounts).store_config.authority@ != old(accounts).authority@ ==> r == Err::<
            TreasuryUpdated,
            ProgramError,
        >(ProgramError::HasOneMismatch),
        old(accounts).store_config.authority@ == old(accounts).authority@ && treasury@
            == zero_bytes() ==> r == Err::<TreasuryUpdated, ProgramError>(
            ProgramError::Store(StoreError::InvalidTreasury),
        ),
        old(accounts).store_config.authority@ == old(accounts).authority@ && treasury@ != zero_bytes() ==> r is Ok,
        r is Err ==> *final(accounts) == *old(accounts),
        r is Ok ==> old(accounts).store_config.authority@ == old(accounts).authority@ && treasury@
            != zero_bytes(),
        r is Ok ==> r == Ok::<TreasuryUpdated, ProgramError>(TreasuryUpdated { treasury })
            && final(accounts).authority == old(accounts).authority
            && final(accounts).store_config == (StoreConfig {
            treasury,
            ..old(accounts).store_config
        }),
        old(accounts).store_config.valid() ==> final(accounts).store_config.valid(),
{
    if !keys_eq(&accounts.store_config.authority, &accounts.authority) {
        return Err(ProgramError::HasOneMismatch);
    }
    if treasury.is_zero() {
        return Err(ProgramError::Store(StoreError::InvalidTreasury));
    }
    accounts.store_config.treasury = treasury;
    Ok(TreasuryUpdated { treasury })
}

} // verus!
