//! Trusts a source program.
use vstd::prelude::*;
use crate::address::{keys_eq, Address};
use crate::store::errors::ProgramError;
use crate::store::state::StoreConfig;

verus! {

/// A trusted source program.
#[derive(Clone, Copy, Debug)]
pub struct AuthorizedSourceProgram {
    pub program_id: Address,
    pub active: bool,
    pub bump: u8,
}

/// What adding the program reports.
#[derive(Clone, Copy, Debug)]
pub struct AuthorizedSourceProgramAdded {
    pub program_id: Address,
}

/// The accounts of `add_authorized_source_program`.
pub struct AddAuthorizedSourceProgram {
    pub authority: Address,
    pub store_config: StoreConfig,
    pub program_id: Address,
    pub record_bump: u8,
}

/// Creates an active record for the program. Only the store's authority may.
pub fn handler(accounts: &AddAuthorizedSourceProgram) -> (r: Result<
    (AuthorizedSourceProgram, AuthorizedSourceProgramAdded),
    ProgramError,
>)
    ensures
        accounts.store_config.authority@ != accounts.authority@ ==> r == Err::<
            (AuthorizedSourceProgram, AuthorizedSourceProgramAdded),
            ProgramError,
        >(ProgramError::HasOneMismatch),
        accounts.store_config.authority@ == accounts.authority@ ==> r == Ok::<
            (AuthorizedSourceProgram, AuthorizedSourceProgramAdded),
            ProgramError,
        >((
            AuthorizedSourceProgram {
                program_id: accounts.program_id,
                active: true,
                bump: accounts.record_bump,
            },
            AuthorizedSourceProgramAdded { program_id: accounts.program_id },
        )),
{
    if !keys_eq(&accounts.store_config.authority, &accounts.authority) {
        return Err(ProgramError::HasOneMismatch);
    }
    let record = AuthorizedSourceProgram {
        program_id: accounts.program_id,
        active: true,
        bump: accounts.record_bump,
    };
    Ok((record, AuthorizedSourceProgramAdded { program_id: accounts.program_id }))
}

} // verus!
