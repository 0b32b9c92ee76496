//! Turns a trusted program on or off, and changes its role.
use vstd::prelude::*;
use crate::address::{keys_eq, Address};
use crate::store::errors::{ProgramError, StoreError};
use crate::store::events::AuthorizedProgramUpdated;
use crate::store::instructions::{
    read_bool,
    read_option_u8,
    spec_read_bool,
    spec_read_option,
    spec_read_u8,
};
use crate::store::state::{AuthorizedProgram, StoreConfig, ROLE_REGISTRY};

verus! {

/// The accounts of `update_authorized_program`.
pub struct UpdateAuthorizedProgram {
    pub authority: Address,
    pub store_config: StoreConfig,
    pub authorized_program: AuthorizedProgram,
}

/// The arguments that the instruction data holds: a flag, then an optional
/// role.
pub open spec fn decode_update_authorized_program(data: Seq<u8>) -> Option<(bool, Option<u8>)> {
    match spec_read_bool(data, 0) {
        None => None,
        Some((active, next)) => match spec_read_option(
            data,
            next,
            |d: Seq<u8>, o: int| spec_read_u8(d, o),
        ) {
            None => None,
            Some((role, _)) => Some((active, role)),
        },
    }
}

/// Sets whether the program is trusted and, where the data names one, its
/// role. Only the authority may, and the role is a source or a registry.
pub fn handler(accounts: &mut UpdateAuthorizedProgram, data: &[u8]) -> (r: Result<
    AuthorizedProgramUpdated,
    ProgramError,
>)
    ensures
        r is Err ==> *final(accounts) == *old(accounts),
        final(accounts).authority == old(accounts).authority,
        final(accounts).store_config == old(accounts).store_config,
        old(accounts).store_config.authority@ != old(accounts).authority@ ==> r == Err::<
            AuthorizedProgramUpdated,
            ProgramError,
        >(ProgramError::HasOneMismatch),
        old(accounts).store_config.authority@ == old(accounts).authority@ ==> match decode_update_authorized_program(data@) {
            None => r == Err::<AuthorizedProgramUpdated, ProgramError>(
                ProgramError::InvalidInstructionData,
            ),
            Some((active, role)) => match role {
                Some(new_role) => if new_role > ROLE_REGISTRY {
                    r == Err::<AuthorizedProgramUpdated, ProgramError>(
                        ProgramError::Store(StoreError::InvalidRole),
                    )
                } else {
                    final(accounts).authorized_program == (AuthorizedProgram {
                        active,
                        role: new_role,
                        ..old(accounts).authorized_program
                    }) && r == Ok::<AuthorizedProgramUpdated, ProgramError>(
                        AuthorizedProgramUpdated {
                            program_id: old(accounts).authorized_program.program_id,
                            active,
                            role: new_role,
                        },
                    )
                },
                None => final(accounts).authorized_program == (AuthorizedProgram {
                    active,
                    ..old(accounts).authorized_program
                }) && r == Ok::<AuthorizedProgramUpdated, ProgramError>(
                    AuthorizedProgramUpdated {
                        program_id: old(accounts).authorized_program.program_id,
                        active,
                        role: old(accounts).authorized_program.role,
                    },
                ),
            },
        },
{
    if !keys_eq(&accounts.store_config.authority, &accounts.authority) {
        return Err(ProgramError::HasOneMismatch);
    }
    let mut offset: usize = 0;
    let active = read_bool(data, &mut offset)?;
    let role = read_option_u8(data, &mut offset)?;
    if let Some(new_role) = role {
        if new_role > ROLE_REGISTRY {
            return Err(ProgramError::Store(StoreError::InvalidRole));
        }
        accounts.authorized_program.role = new_role;
    }
    accounts.authorized_program.active = active;
    Ok(
        AuthorizedProgramUpdated {
            program_id: accounts.authorized_program.program_id,
            active,
            role: accounts.authorized_program.role,
        },
    )
}

/// The data is a flag byte and an optional role (a tag byte, 1 for
/// present, then the role byte): a present role decodes as exactly that
/// byte, whatever it is, and an absent one as none.
pub proof fn lemma_role_decodes_as_given(data: Seq<u8>)
    ensures
        data.len() >= 3 && data[1] == 1 ==> decode_update_authorized_program(data) == Some(
            (data[0] != 0, Some(data[2])),
        ),
        data.len() >= 2 && data[1] == 0 ==> decode_update_authorized_program(data) == Some(
            (data[0] != 0, None::<u8>),
        ),
{
}

} // verus!
