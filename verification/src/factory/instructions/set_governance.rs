//! Changes the factory's governance.
use vstd::prelude::*;
use crate::address::{keys_eq, zero_bytes, Address};
use crate::factory::errors::{FactoryError, FactoryFailure};
use crate::factory::events::GovernanceUpdated;
use crate::factory::state::FactoryState;

verus! {

/// The accounts of `set_governance`: the signer and the factory's state.
pub struct SetGovernance {
    pub governance: Address,
    pub factory_state: FactoryState,
}

/// Sets the governance. Only the factory's governance may, and the new
/// address may not be the zero address.
pub fn handler(accounts: &mut SetGovernance, governance: Address) -> (r: Result<GovernanceUpdated, FactoryFailure>)
    ensures
        old(accounts).factory_state.governance@ != old(accounts).governance@ ==> r == Err::<
            GovernanceUpdated,
            FactoryFailure,
        >(FactoryFailure::Factory(FactoryError::Unauthorized)),
        old(accounts).factory_state.governance@ == old(accounts).governance@ && governance@
            == zero_bytes() ==> r == Err::<GovernanceUpdated, FactoryFailure>(
            FactoryFailure::Factory(FactoryError::InvalidGovernance),
        ),
        old(accounts).factory_state.governance@ == old(accounts).governance@ && governance@ != zero_bytes() ==> r is Ok,
        r is Err ==> *final(accounts) == *old(accounts),
        r is Ok ==> old(accounts).factory_state.governance@ == old(accounts).governance@
            && governance@ != zero_bytes(),
        r is Ok ==> r == Ok::<GovernanceUpdated, FactoryFailure>(
            GovernanceUpdated { old_governance: old(accounts).factory_state.governance, new_governance: governance },
        ) && final(accounts).factory_state == (FactoryState {
            governance,
            ..old(accounts).factory_state
        }),
        final(accounts).governance == old(accounts).governance,
        old(accounts).factory_state.valid() ==> final(accounts).factory_state.valid(),
{
    if !keys_eq(&accounts.factory_state.governance, &accounts.governance) {
        return Err(FactoryFailure::Factory(FactoryError::Unauthorized));
    }
    if governance.is_zero() {
        return Err(FactoryFailure::Factory(FactoryError::InvalidGovernance));
    }
    let old_governance = accounts.factory_state.governance;
    accounts.factory_state.governance = governance;
    Ok(GovernanceUpdated { old_governance, new_governance: governance })
}

} // verus!
