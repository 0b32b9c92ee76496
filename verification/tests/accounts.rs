use game_store::address::Address;
use game_store::store::errors::{ProgramError, StoreError};
use game_store::store::external::{
    assert_active_registry_game, authorized_actor_seed, license_seed, mint_license, pgl1_id, registry_id,
    AccountView, Pgl1Program, PglAuthorizedActor, PglGame, RegistryGame, RegistryGameStatus, RegistryProgram,
};

fn addr(n: u8) -> Address {
    Address::new_from_array([n; 32])
}

fn game_data(len: usize) -> Vec<u8> {
    let mut data = vec![27u8, 90, 166, 125, 74, 100, 121, 18];
    data.extend_from_slice(&[5u8; 32]);
    data.extend_from_slice(&[0u8; 8]);
    data.extend_from_slice(&[6u8; 32]);
    data.resize(len, 0);
    data
}

fn registry_data(status: u8) -> Vec<u8> {
    let mut data = vec![44u8, 59, 51, 135, 203, 140, 48, 151];
    data.extend_from_slice(&[5u8; 32]);
    data.extend_from_slice(&[0u8; 8]);
    data.push(status);
    data.extend_from_slice(&[0u8; 4]);
    data
}

#[test]
fn program_ids_and_seeds() {
    assert_eq!(pgl1_id().bytes[0], 67);
    assert_eq!(pgl1_id().bytes[31], 244);
    assert_eq!(registry_id().bytes[0], 116);
    assert_eq!(registry_id().bytes[31], 188);
    assert_eq!(Pgl1Program::id(), pgl1_id());
    assert_eq!(RegistryProgram::id(), registry_id());
    assert_eq!(authorized_actor_seed(), b"authorized_actor".to_vec());
    assert_eq!(license_seed(), b"license".to_vec());
}

#[test]
fn game_account_checks() {
    let ok = AccountView { address: addr(5), owner: pgl1_id(), data: game_data(80) };
    let g = PglGame::from_account_view(ok.clone()).unwrap();
    assert_eq!(g.address(), addr(5));
    assert_eq!(g.publisher(), Ok(addr(6)));
    let wrong_owner = AccountView { owner: addr(1), ..ok.clone() };
    assert_eq!(PglGame::from_account_view(wrong_owner).unwrap_err(), ProgramError::IllegalOwner);
    let short = AccountView { data: game_data(79), ..ok.clone() };
    assert_eq!(PglGame::from_account_view(short).unwrap_err(), ProgramError::AccountDataTooSmall);
    let mut bad_disc = ok.clone();
    bad_disc.data[0] = 0;
    assert_eq!(PglGame::from_account_view(bad_disc).unwrap_err(), ProgramError::InvalidAccountData);
    let longer = AccountView { data: game_data(120), ..ok };
    assert!(PglGame::from_account_view(longer).is_ok());
}

#[test]
fn authorized_actor_fields() {
    let mut data = vec![155u8, 89, 1, 231, 51, 170, 32, 23];
    data.extend_from_slice(&[9u8; 32]);
    data.push(1);
    data.push(254);
    let view = AccountView { address: addr(8), owner: pgl1_id(), data };
    let a = PglAuthorizedActor::from_account_view(view.clone()).unwrap();
    assert_eq!(a.address(), addr(8));
    assert_eq!(a.actor(), Ok(addr(9)));
    assert_eq!(a.active(), Ok(true));
    assert_eq!(a.bump(), Ok(254));
    let mut inactive = view.clone();
    inactive.data[40] = 0;
    assert_eq!(PglAuthorizedActor::from_account_view(inactive).unwrap().active(), Ok(false));
    let mut short = view.clone();
    short.data.pop();
    assert_eq!(PglAuthorizedActor::from_account_view(short).unwrap_err(), ProgramError::AccountDataTooSmall);
    let wrong_owner = AccountView { owner: registry_id(), ..view };
    assert_eq!(PglAuthorizedActor::from_account_view(wrong_owner).unwrap_err(), ProgramError::IllegalOwner);
}

#[test]
fn registry_record_status() {
    let view = |status: u8| AccountView { address: addr(4), owner: registry_id(), data: registry_data(status) };
    let r = RegistryGame::from_account_view(view(0)).unwrap();
    assert_eq!(r.address(), addr(4));
    assert_eq!(r.game(), Ok(addr(5)));
    assert_eq!(r.status(), Ok(RegistryGameStatus::Active));
    assert_eq!(assert_active_registry_game(&r), Ok(()));
    let statuses = [
        (1u8, RegistryGameStatus::Suspended),
        (2, RegistryGameStatus::Banned),
        (9, RegistryGameStatus::Unknown),
    ];
    for (b, s) in statuses {
        let r = RegistryGame::from_account_view(view(b)).unwrap();
        assert_eq!(r.status(), Ok(s));
        assert_eq!(assert_active_registry_game(&r), Err(ProgramError::Store(StoreError::GameNotActive)));
    }
    let mut short = view(0);
    short.data.truncate(52);
    assert_eq!(RegistryGame::from_account_view(short).unwrap_err(), ProgramError::AccountDataTooSmall);
    let wrong_owner = AccountView { owner: pgl1_id(), ..view(0) };
    assert_eq!(RegistryGame::from_account_view(wrong_owner).unwrap_err(), ProgramError::IllegalOwner);
}

#[test]
fn mint_license_call() {
    let c = mint_license(addr(1), addr(2), addr(3), addr(4), addr(5), addr(6), addr(7));
    assert_eq!(c.program_id, addr(1));
    assert_eq!(c.data, vec![57, 204, 93, 84, 160, 241, 254, 52, 0]);
    let metas: Vec<(Address, bool, bool)> =
        c.accounts.iter().map(|m| (m.address, m.is_signer, m.is_writable)).collect();
    assert_eq!(
        metas,
        vec![
            (addr(2), true, false),
            (addr(3), false, false),
            (addr(4), false, false),
            (addr(5), false, false),
            (addr(6), false, true),
            (addr(7), false, false),
        ]
    );
}
