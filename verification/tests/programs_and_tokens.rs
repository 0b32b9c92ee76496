use game_store::address::Address;
use game_store::store::errors::{ProgramError, StoreError};
use game_store::store::instructions::{
    add_authorized_program, add_authorized_registry_program, add_authorized_source_program,
    add_payment_token, update_authorized_program, update_authorized_registry_program,
    update_authorized_source_program, update_payment_token,
};
use game_store::store::state::{AcceptedPaymentToken, AuthorizedProgram, StoreConfig};

fn addr(n: u8) -> Address {
    Address::new_from_array([n; 32])
}

fn store_config() -> StoreConfig {
    StoreConfig {
        authority: addr(1),
        treasury: addr(2),
        platform_fee_bps: 100,
        default_referral_bps: 0,
        max_referral_bps: 0,
        store_actor: addr(3),
        bump: 255,
    }
}

#[test]
fn add_authorized_program_roles() {
    let acc = add_authorized_program::AddAuthorizedProgram {
        authority: addr(1),
        store_config: store_config(),
        program_id: addr(5),
        authorized_program_bump: 6,
    };
    let (rec, e) = add_authorized_program::handler(&acc, 1).unwrap();
    assert_eq!(rec.program_id, addr(5));
    assert!(rec.active);
    assert_eq!(rec.role, 1);
    assert_eq!(rec.bump, 6);
    assert_eq!(e.role, 1);
    assert_eq!(add_authorized_program::handler(&acc, 2).unwrap_err(), ProgramError::Store(StoreError::InvalidRole));
    let other = add_authorized_program::AddAuthorizedProgram { authority: addr(9), ..acc };
    assert_eq!(add_authorized_program::handler(&other, 0).unwrap_err(), ProgramError::HasOneMismatch);
}

#[test]
fn update_authorized_program_from_data() {
    let mut acc = update_authorized_program::UpdateAuthorizedProgram {
        authority: addr(1),
        store_config: store_config(),
        authorized_program: AuthorizedProgram { program_id: addr(5), active: true, role: 0, bump: 6 },
    };
    let e = update_authorized_program::handler(&mut acc, &[0, 1, 1]).unwrap();
    assert!(!e.active);
    assert_eq!(e.role, 1);
    assert!(!acc.authorized_program.active);
    assert_eq!(acc.authorized_program.role, 1);
    let e = update_authorized_program::handler(&mut acc, &[7, 0]).unwrap();
    assert!(e.active);
    assert_eq!(e.role, 1);
    assert_eq!(
        update_authorized_program::handler(&mut acc, &[0, 1, 2]).unwrap_err(),
        ProgramError::Store(StoreError::InvalidRole)
    );
    assert!(acc.authorized_program.active);
    assert_eq!(update_authorized_program::handler(&mut acc, &[0]).unwrap_err(), ProgramError::InvalidInstructionData);
    assert_eq!(update_authorized_program::handler(&mut acc, &[]).unwrap_err(), ProgramError::InvalidInstructionData);
    acc.authority = addr(2);
    assert_eq!(update_authorized_program::handler(&mut acc, &[0, 0]).unwrap_err(), ProgramError::HasOneMismatch);
}

#[test]
fn payment_tokens() {
    let acc = add_payment_token::AddPaymentToken {
        authority: addr(1),
        store_config: store_config(),
        mint: addr(8),
        accepted_payment_token_bump: 2,
    };
    let (rec, e) = add_payment_token::handler(&acc).unwrap();
    assert_eq!(rec.mint, addr(8));
    assert!(rec.active);
    assert_eq!(e.mint, addr(8));
    let mut upd = update_payment_token::UpdatePaymentToken {
        authority: addr(1),
        store_config: store_config(),
        accepted_payment_token: AcceptedPaymentToken { mint: addr(8), active: true, bump: 2 },
    };
    let e = update_payment_token::handler(&mut upd, false).unwrap();
    assert!(!e.active);
    assert!(!upd.accepted_payment_token.active);
    upd.authority = addr(4);
    assert_eq!(update_payment_token::handler(&mut upd, true).unwrap_err(), ProgramError::HasOneMismatch);
    assert!(!upd.accepted_payment_token.active);
}

#[test]
fn registry_and_source_program_records() {
    let acc = add_authorized_registry_program::AddAuthorizedRegistryProgram {
        authority: addr(1),
        store_config: store_config(),
        program_id: addr(7),
        record_bump: 3,
    };
    let (rec, e) = add_authorized_registry_program::handler(&acc).unwrap();
    assert!(rec.active);
    assert_eq!(e.program_id, addr(7));
    let mut upd = update_authorized_registry_program::UpdateAuthorizedRegistryProgram {
        authority: addr(1),
        store_config: store_config(),
        record: rec,
    };
    assert!(!update_authorized_registry_program::handler(&mut upd, false).unwrap().active);
    assert!(!upd.record.active);

    let acc = add_authorized_source_program::AddAuthorizedSourceProgram {
        authority: addr(2),
        store_config: store_config(),
        program_id: addr(7),
        record_bump: 3,
    };
    assert_eq!(add_authorized_source_program::handler(&acc).unwrap_err(), ProgramError::HasOneMismatch);
    let acc = add_authorized_source_program::AddAuthorizedSourceProgram { authority: addr(1), ..acc };
    let (rec, _) = add_authorized_source_program::handler(&acc).unwrap();
    let mut upd = update_authorized_source_program::UpdateAuthorizedSourceProgram {
        authority: addr(9),
        store_config: store_config(),
        record: rec,
    };
    assert_eq!(update_authorized_source_program::handler(&mut upd, false).unwrap_err(), ProgramError::HasOneMismatch);
    assert!(upd.record.active);
}
