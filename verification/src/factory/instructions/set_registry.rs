//! Changes the factory's registry.
use vstd::prelude::*;
use crate::address::{keys_eq, zero_bytes, Address};
use crate::factory::errors::{FactoryError, FactoryFailure};
use crate::factory::events::RegistryUpdated;
use crate::factory::state::FactoryState;

verus! {

/// The accounts of `set_registry`: the signer and the factory's state.
pub struct SetRegistry {
    pub governance: Address,
    pub factory_state: FactoryState,
}

/// Sets the registry. Only the factory's governance may, and the new
/// address may not be the zero address.
pub fn handler(accounts: &mut SetRegistry, registry: Address) -> (r: Result<RegistryUpdated, FactoryFailure>)
    ensures
        old(accounts).factory_state.governance@ != old(accounts).governance@ ==> r == Err::<
            RegistryUpdated,
            FactoryFailure,
        >(FactoryFailure::Factory(FactoryError::Unauthorized)),
        old(accounts).factory_state.governance@ == old(accounts).governance@ && registry@
            == zero_bytes() ==> r == Err::<RegistryUpdated, FactoryFailure>(
            FactoryFailure::Factory(FactoryError::InvalidRegistry),
        ),
        old(accounts).factory_state.governance@ == old(accounts).governance@ && registry@ != zero_bytes() ==> r is Ok,
        r is Err ==> *final(accounts) == *old(accounts),
        r is Ok ==> old(accounts).factory_state.governance@ == old(accounts).governance@
            && registry@ != zero_bytes(),
        r is Ok ==> r == Ok::<RegistryUpdated, FactoryFailure>(
            RegistryUpdated { old_registry: old(accounts).factory_state.registry, new_registry: registry },
        ) && final(accounts).factory_state == (FactoryState {
            registry,
            ..old(accounts).factory_state
        }),
        final(accounts).governance == old(accounts).governance,
        old(accounts).factory_state.valid() ==> final(accounts).factory_state.valid(),
{
    if !keys_eq(&accounts.factory_state.governance, &accounts.governance) {
        return Err(FactoryFailure::Factory(FactoryError::Unauthorized));
    }
    if registry.is_zero() {
        return Err(FactoryFailure::Factory(FactoryError::InvalidRegistry));
    }
    let old_registry = accounts.factory_state.registry;
    accounts.factory_state.registry = registry;
    Ok(RegistryUpdated { old_registry, new_registry: registry })
}

} // verus!
