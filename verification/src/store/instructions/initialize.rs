//! Writes the simpler flow's configuration with a chosen governance.
use vstd::prelude::*;
use crate::address::Address;
use crate::store::listing::StoreConfig;

verus! {

/// The accounts of `initialize`: the configuration and its bump.
pub struct Initialize {
    pub store_config: StoreConfig,
    pub store_config_bump: u8,
}

/// Sets the governance, treasury and platform fee.
pub fn handler(accounts: &mut Initialize, governance: Address, treasury: Address, platform_fee_bps: u16)
    ensures
        final(accounts).store_config == (StoreConfig {
            governance,
            treasury,
            platform_fee_bps,
            bump: old(accounts).store_config_bump,
        }),
        final(accounts).store_config_bump == old(accounts).store_config_bump,
{
    accounts.store_config = StoreConfig {
        governance,
        treasury,
        platform_fee_bps,
        bump: accounts.store_config_bump,
    };
}

} // verus!
