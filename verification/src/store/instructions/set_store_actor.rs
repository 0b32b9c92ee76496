//! Changes the account that mints licenses on the store's behalf.
use vstd::prelude::*;
use crate::address::{keys_eq, zero_bytes, Address};
use crate::store::errors::{ProgramError, StoreError};
use crate::store::events::StoreActorUpdated;
use crate::store::state::StoreConfig;

verus! {

/// The accounts of `set_store_actor`: the signer and the configuration.
pub struct SetStoreActor {
    pub authority: Address,
    pub store_config: StoreConfig,
}

/// Sets the store actor. Only the authority may (else `Unauthorized`), and
/// the actor may not be the zero address.
pub fn handler(accounts: &mut SetStoreActor, new_store_actor: Address) -> (r: Result<
    StoreActorUpdated,
    ProgramError,
>)
    ensures
        old(accounts).store_config.authority@ != old(accounts).authority@ ==> r == Err::<
            StoreActorUpdated,
            ProgramError,
        >(ProgramError::Store(StoreError::Unauthorized)),
        old(accounts).store_config.authority@ == old(accounts).authority@ && new_store_actor@
            == zero_bytes() ==> r == Err::<StoreActorUpdated, ProgramError>(
            ProgramError::Store(StoreError::InvalidStoreActor),
        ),
        old(accounts).store_config.authority@ == old(accounts).authority@ && new_store_actor@ != zero_bytes() ==> r is Ok,
        r is Err ==> *final(accounts) == *old(accounts),
        r is Ok ==> old(accounts).store_config.authority@ == old(accounts).authority@
            && new_store_actor@ != zero_bytes(),
        r is Ok ==> r == Ok::<StoreActorUpdated, ProgramError>(
            StoreActorUpdated {
                old_store_actor: old(accounts).store_config.store_actor,
                new_store_actor,
            },
        ) && final(accounts).store_config == (StoreConfig {
            store_actor: new_store_actor,
            ..old(accounts).store_config
        }),
        final(accounts).authority == old(accounts).authority,
        old(accounts).store_config.valid() ==> final(accounts).store_config.valid(),
{
    if !keys_eq(&accounts.store_config.authority, &accounts.authority) {
        return Err(ProgramError::Store(StoreError::Unauthorized));
    }
    if new_store_actor.is_zero() {
        return Err(ProgramError::Store(StoreError::InvalidStoreActor));
    }
    let old_store_actor = accounts.store_config.store_actor;
    accounts.store_config.store_actor = new_store_actor;
    Ok(StoreActorUpdated { old_store_actor, new_store_actor })
}

} // verus!
