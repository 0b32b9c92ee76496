//! Trusts a registry program.
use vstd::prelude::*;
use crate::address::{keys_eq, Address};
use crate::store::errors::ProgramError;
use crate::store::state::StoreConfig;

verus! {

/// A trusted registry program.
#[derive(Clone, Copy, Debug)]
pub struct AuthorizedRegistryProgram {
    pub program_id: Address,
    pub active: bool,
    pub bump: u8,
}

/// What adding the program reports.
#[derive(Clone, Copy, Debug)]
pub struct AuthorizedRegistryProgramAdded {
    pub program_id: Address,
}

/// The accounts of `add_authorized_registry_program`.
pub struct AddAuthorizedRegistryProgram {
    pub authority: Address,
    pub store_config: StoreConfig,
    pub program_id: Address,
    pub record_bump: u8,
}

/// Creates an active record for the program. Only the store's authority may.
pub fn handler(accounts: &AddAuthorizedRegistryProgram) -> (r: Result<
    (AuthorizedRegistryProgram, AuthorizedRegistryProgramAdded),
    ProgramError,
>)
    ensures
        accounts.store_config.authority@ != accounts.authority@ ==> r == Err::<
            (AuthorizedRegistryProgram, AuthorizedRegistryProgramAdded),
            ProgramError,
        >(ProgramError::HasOneMismatch),
        accounts.store_config.authority@ == accounts.authority@ ==> r == Ok::<
            (AuthorizedRegistryProgram, AuthorizedRegistryProgramAdded),
            ProgramError,
        >((
            AuthorizedRegistryProgram {
                program_id: accounts.program_id,
                active: true,
                bump: accounts.record_bump,
            },
            AuthorizedRegistryProgramAdded { program_id: accounts.program_id },
        )),
{
    if !keys_eq(&accounts.store_config.authority, &accounts.authority) {
        return Err(ProgramError::HasOneMismatch);
    }
    let record = AuthorizedRegistryProgram {
        program_id: accounts.program_id,
        active: true,
        bump: accounts.record_bump,
    };
    Ok((record, AuthorizedRegistryProgramAdded { program_id: accounts.program_id }))
}

} // verus!
