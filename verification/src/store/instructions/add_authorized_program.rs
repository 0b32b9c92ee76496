//! Trusts a program in a role.
use vstd::prelude::*;
use crate::address::{keys_eq, Address};
use crate::store::errors::{ProgramError, StoreError};
use crate::store::events::AuthorizedProgramAdded;
use crate::store::state::{AuthorizedProgram, StoreConfig, ROLE_REGISTRY};

verus! {

/// The accounts of `add_authorized_program`: the signer, the
/// configuration, the program to trust, and the bump of the new record.
pub struct AddAuthorizedProgram {
    pub authority: Address,
    pub store_config: StoreConfig,
    pub program_id: Address,
    pub authorized_program_bump: u8,
}

/// Creates an active record for the program in the given role. Only the
/// authority may, and the role is a source (0) or a registry (1).
pub fn handler(accounts: &AddAuthorizedProgram, role: u8) -> (r: Result<
    (AuthorizedProgram, AuthorizedProgramAdded),
    ProgramError,
>)
    ensures
        accounts.store_config.authority@ != accounts.authority@ ==> r == Err::<
            (AuthorizedProgram, AuthorizedProgramAdded),
            ProgramError,
        >(ProgramError::HasOneMismatch),
        accounts.store_config.authority@ == accounts.authority@ && role > ROLE_REGISTRY ==> r
            == Err::<(AuthorizedProgram, AuthorizedProgramAdded), ProgramError>(
            ProgramError::Store(StoreError::InvalidRole),
        ),
        accounts.store_config.authority@ == accounts.authority@ && role <= ROLE_REGISTRY ==> r
            == Ok::<(AuthorizedProgram, AuthorizedProgramAdded), ProgramError>((
            AuthorizedProgram {
                program_id: accounts.program_id,
                active: true,
                role,
                bump: accounts.authorized_program_bump,
            },
            AuthorizedProgramAdded { program_id: accounts.program_id, role },
        )),
{
    if !keys_eq(&accounts.store_config.authority, &accounts.authority) {
        return Err(ProgramError::HasOneMismatch);
    }
    if role > ROLE_REGISTRY {
        return Err(ProgramError::Store(StoreError::InvalidRole));
    }
    let record = AuthorizedProgram {
        program_id: accounts.program_id,
        active: true,
        role,
        bump: accounts.authorized_program_bump,
    };
    Ok((record, AuthorizedProgramAdded { program_id: accounts.program_id, role }))
}

} // verus!
