//! Hands the price list and ledger to a new governance.
use vstd::prelude::*;
use crate::address::{keys_eq, zero_bytes, Address};
use crate::store::states::{GameStoreError, StoreState};

verus! {

/// The accounts of `set_governance`.
pub struct SetGovernance {
    pub governance: Address,
    pub store_state: StoreState,
}

/// What the change reports.
#[derive(Clone, Copy, Debug)]
pub struct GovernanceUpdated {
    pub old_governance: Address,
    pub new_governance: Address,
}

/// Sets the governance. Only the current governance may, and the new one
/// may not be the zero address.
pub fn handler(accounts: &mut SetGovernance, governance: Address) -> (r: Result<
    GovernanceUpdated,
    GameStoreError,
>)
    ensures
        old(accounts).store_state.governance@ != old(accounts).governance@ ==> r == Err::<
            GovernanceUpdated,
            GameStoreError,
        >(GameStoreError::Unauthorized),
        old(accounts).store_state.governance@ == old(accounts).governance@ && governance@
            == zero_bytes() ==> r == Err::<GovernanceUpdated, GameStoreError>(
            GameStoreError::InvalidGovernance,
        ),
        old(accounts).store_state.governance@ == old(accounts).governance@ && governance@ != zero_bytes() ==> r is Ok,
        r is Err ==> final(accounts).store_state.governance == old(accounts).store_state.governance,
        r is Ok ==> old(accounts).store_state.governance@ == old(accounts).governance@ && governance@
            != zero_bytes() && final(accounts).store_state.governance == governance && r == Ok::<
            GovernanceUpdated,
            GameStoreError,
        >(
            GovernanceUpdated {
                old_governance: old(accounts).store_state.governance,
                new_governance: governance,
            },
        ),
        final(accounts).store_state.prices@ == old(accounts).store_state.prices@,
        final(accounts).store_state.publisher_balances@ == old(accounts).store_state.publisher_balances@,
        final(accounts).store_state.treasury == old(accounts).store_state.treasury,
        final(accounts).store_state.platform_fee_bps == old(accounts).store_state.platform_fee_bps,
        final(accounts).store_state.registry == old(accounts).store_state.registry,
        final(accounts).store_state.bump == old(accounts).store_state.bump,
        final(accounts).governance == old(accounts).governance,
{
    if !keys_eq(&accounts.store_state.governance, &accounts.governance) {
        return Err(GameStoreError::Unauthorized);
    }
    if governance.is_zero() {
        return Err(GameStoreError::InvalidGovernance);
    }
    let old_governance = accounts.store_state.governance;
    accounts.store_state.governance = governance;
    Ok(GovernanceUpdated { old_governance, new_governance: governance })
}

} // verus!
