//! Turns a trusted registry program on or off.
use vstd::prelude::*;
use crate::address::{keys_eq, Address};
use crate::store::errors::ProgramError;
use crate::store::instructions::add_authorized_registry_program::AuthorizedRegistryProgram;
use crate::store::state::StoreConfig;

verus! {

/// What the change reports.
#[derive(Clone, Copy, Debug)]
pub struct AuthorizedRegistryProgramUpdated {
    pub program_id: Address,
    pub active: bool,
}

/// The accounts of `update_authorized_registry_program`.
pub struct UpdateAuthorizedRegistryProgram {
    pub authority: Address,
    pub store_config: StoreConfig,
    pub record: AuthorizedRegistryProgram,
}

/// Sets whether the program is trusted. Only the store's authority may.
pub fn handler(accounts: &mut UpdateAuthorizedRegistryProgram, active: bool) -> (r: Result<
    AuthorizedRegistryProgramUpdated,
    ProgramError,
>)
    ensures
        old(accounts).store_config.authority@ != old(accounts).authority@ ==> r == Err::<
            AuthorizedRegistryProgramUpdated,
            ProgramError,
        >(ProgramError::HasOneMismatch) && *final(accounts) == *old(accounts),
        old(accounts).store_config.authority@ == old(accounts).authority@ ==> r == Ok::<
            AuthorizedRegistryProgramUpdated,
            ProgramError,
        >(AuthorizedRegistryProgramUpdated { program_id: old(accounts).record.program_id, active })
            && final(accounts).record == (AuthorizedRegistryProgram { active, ..old(accounts).record }),
        final(accounts).store_config == old(accounts).store_config,
        final(accounts).authority == old(accounts).authority,
{
    if !keys_eq(&accounts.store_config.authority, &accounts.authority) {
        return Err(ProgramError::HasOneMismatch);
    }
    accounts.record.active = active;
    Ok(AuthorizedRegistryProgramUpdated { program_id: accounts.record.program_id, active })
}

} // verus!
