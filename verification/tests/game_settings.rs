use anchor_lang::prelude::Pubkey;
use game_store::address::Address;
use game_store::store::errors::{ProgramError, StoreError};
use game_store::store::external::{pgl1_id, registry_id, AccountView, PglGame, RegistryGame};
use game_store::store::instructions::{
    clear_discount, init_game_store_config, remove_game_payment_option, set_discount,
    set_game_payment_option, set_game_store_active, set_referral_bps,
};
use game_store::store::state::{
    AcceptedPaymentToken, AuthorizedProgram, GamePaymentOption, GameStoreConfig, OptionI64,
    OptionU16, StoreConfig,
};

fn addr(n: u8) -> Address {
    Address::new_from_array([n; 32])
}

const GAME: u8 = 10;
const PUBLISHER: u8 = 11;
const MINT: u8 = 13;

fn game() -> PglGame {
    let mut data = vec![27u8, 90, 166, 125, 74, 100, 121, 18];
    data.extend_from_slice(&[GAME; 32]);
    data.extend_from_slice(&[0u8; 8]);
    data.extend_from_slice(&[PUBLISHER; 32]);
    PglGame::from_account_view(AccountView { address: addr(GAME), owner: pgl1_id(), data }).unwrap()
}

fn registry_game(game: u8, status: u8) -> RegistryGame {
    let mut data = vec![44u8, 59, 51, 135, 203, 140, 48, 151];
    data.extend_from_slice(&[game; 32]);
    data.extend_from_slice(&[0u8; 8]);
    data.push(status);
    data.extend_from_slice(&[0u8; 4]);
    RegistryGame::from_account_view(AccountView { address: addr(40), owner: registry_id(), data }).unwrap()
}

fn source() -> AuthorizedProgram {
    AuthorizedProgram { program_id: pgl1_id(), active: true, role: 0, bump: 1 }
}

fn registry() -> AuthorizedProgram {
    AuthorizedProgram { program_id: registry_id(), active: true, role: 1, bump: 1 }
}

fn gsc() -> GameStoreConfig {
    GameStoreConfig {
        game: addr(GAME),
        active: true,
        referral_bps: OptionU16::none(),
        discount_bps: OptionU16::none(),
        discount_starts_at: OptionI64::none(),
        discount_expires_at: OptionI64::none(),
        bump: 9,
    }
}

fn store_config() -> StoreConfig {
    StoreConfig {
        authority: addr(1),
        treasury: addr(2),
        platform_fee_bps: 1_000,
        default_referral_bps: 500,
        max_referral_bps: 2_000,
        store_actor: addr(3),
        bump: 255,
    }
}

fn init_accounts() -> init_game_store_config::InitGameStoreConfig {
    let registry_program = registry_id();
    let (pda, _) = Pubkey::find_program_address(
        &[b"registry_game", &[GAME; 32]],
        &Pubkey::new_from_array(registry_program.bytes),
    );
    init_game_store_config::InitGameStoreConfig {
        payer: addr(20),
        publisher: Some(addr(PUBLISHER)),
        source_program: pgl1_id(),
        authorized_source_program: source(),
        registry_program,
        authorized_registry_program: registry(),
        game: game(),
        registry_game: AccountView {
            address: Address::new_from_array(pda.to_bytes()),
            owner: registry_program,
            data: vec![],
        },
        game_store_config_bump: 7,
    }
}

#[test]
fn init_game_store_config_by_publisher_or_registry() {
    let (cfg, e) = init_game_store_config::handler(&init_accounts(), true).unwrap();
    assert_eq!(cfg.game, addr(GAME));
    assert!(cfg.active);
    assert_eq!(cfg.referral_bps.get(), None);
    assert_eq!(cfg.discount_bps.get(), None);
    assert_eq!(cfg.discount_starts_at.get(), None);
    assert_eq!(cfg.discount_expires_at.get(), None);
    assert_eq!(cfg.bump, 7);
    assert_eq!(e.game, addr(GAME));
    let mut acc = init_accounts();
    acc.publisher = None;
    assert!(init_game_store_config::handler(&acc, false).is_ok());
}

#[test]
fn init_game_store_config_errors() {
    let mut acc = init_accounts();
    acc.publisher = Some(addr(21));
    assert_eq!(init_game_store_config::handler(&acc, true).unwrap_err(), ProgramError::Store(StoreError::Unauthorized));
    let mut acc = init_accounts();
    acc.registry_game.address = addr(22);
    assert_eq!(init_game_store_config::handler(&acc, true).unwrap_err(), ProgramError::Store(StoreError::RegistryGameMismatch));
    let mut acc = init_accounts();
    acc.registry_game.owner = addr(23);
    assert_eq!(init_game_store_config::handler(&acc, true).unwrap_err(), ProgramError::Store(StoreError::RegistryProgramNotAuthorized));
    let mut acc = init_accounts();
    acc.authorized_source_program.role = 1;
    assert_eq!(init_game_store_config::handler(&acc, true).unwrap_err(), ProgramError::Store(StoreError::InsufficientRole));
    let mut acc = init_accounts();
    acc.authorized_registry_program.role = 0;
    assert_eq!(init_game_store_config::handler(&acc, true).unwrap_err(), ProgramError::Store(StoreError::InsufficientRole));
    let mut acc = init_accounts();
    acc.authorized_registry_program.active = false;
    assert_eq!(init_game_store_config::handler(&acc, true).unwrap_err(), ProgramError::Store(StoreError::RegistryProgramNotAuthorized));
}

#[test]
fn open_for_sale_follows_the_given_record_address() {
    let mut acc = init_accounts();
    acc.registry_game.address = addr(30);
    let (cfg, _) = init_game_store_config::open_for_sale(&acc, true, Some(addr(30))).unwrap();
    assert_eq!(cfg.game, addr(GAME));
    assert_eq!(
        init_game_store_config::open_for_sale(&acc, true, Some(addr(31))).unwrap_err(),
        ProgramError::Store(StoreError::RegistryGameMismatch)
    );
    assert_eq!(init_game_store_config::open_for_sale(&acc, true, None).unwrap_err(), ProgramError::NoViableBump);
    acc.publisher = Some(addr(21));
    assert_eq!(
        init_game_store_config::open_for_sale(&acc, true, None).unwrap_err(),
        ProgramError::Store(StoreError::Unauthorized)
    );
}

#[test]
fn set_game_store_active_rules() {
    let mut acc = set_game_store_active::SetGameStoreActive {
        publisher: addr(PUBLISHER),
        authorized_source_program: source(),
        game: game(),
        registry_game: registry_game(GAME, 0),
        game_store_config: gsc(),
    };
    let e = set_game_store_active::handler(&mut acc, false).unwrap();
    assert!(!e.active);
    assert!(!acc.game_store_config.active);
    acc.publisher = addr(30);
    assert_eq!(set_game_store_active::handler(&mut acc, true).unwrap_err(), ProgramError::Store(StoreError::Unauthorized));
    assert!(!acc.game_store_config.active);
    acc.publisher = addr(PUBLISHER);
    acc.registry_game = registry_game(GAME, 2);
    assert_eq!(set_game_store_active::handler(&mut acc, true).unwrap_err(), ProgramError::Store(StoreError::GameNotActive));
    acc.registry_game = registry_game(31, 0);
    assert_eq!(set_game_store_active::handler(&mut acc, true).unwrap_err(), ProgramError::Store(StoreError::RegistryGameMismatch));
    acc.game_store_config.game = addr(32);
    assert_eq!(set_game_store_active::handler(&mut acc, true).unwrap_err(), ProgramError::HasOneMismatch);
}

fn payment_accounts() -> set_game_payment_option::SetGamePaymentOption {
    set_game_payment_option::SetGamePaymentOption {
        payer: addr(20),
        publisher: Some(addr(PUBLISHER)),
        authorized_source_program: source(),
        authorized_registry_program: registry(),
        game: game(),
        registry_game: registry_game(GAME, 0),
        game_store_config: gsc(),
        mint: addr(MINT),
        accepted_payment_token: AcceptedPaymentToken { mint: addr(MINT), active: true, bump: 3 },
        game_payment_option: GamePaymentOption {
            game: Address::zero(),
            mint: Address::zero(),
            base_price: 0,
            active: false,
            bump: 0,
        },
        game_payment_option_bump: 4,
    }
}

#[test]
fn set_game_payment_option_writes_price() {
    let mut acc = payment_accounts();
    let e = set_game_payment_option::handler(&mut acc, 1_500, true).unwrap();
    assert_eq!(e.base_price, 1_500);
    assert_eq!(acc.game_payment_option.game, addr(GAME));
    assert_eq!(acc.game_payment_option.mint, addr(MINT));
    assert_eq!(acc.game_payment_option.base_price, 1_500);
    assert!(acc.game_payment_option.active);
    assert_eq!(acc.game_payment_option.bump, 4);
    // the existing option can be updated
    assert!(set_game_payment_option::handler(&mut acc, 2_000, false).is_ok());
    assert_eq!(acc.game_payment_option.base_price, 2_000);
}

#[test]
fn set_game_payment_option_errors() {
    let mut acc = payment_accounts();
    assert_eq!(set_game_payment_option::handler(&mut acc, 0, true).unwrap_err(), ProgramError::Store(StoreError::InvalidPrice));
    let mut acc = payment_accounts();
    acc.game_payment_option.game = addr(33);
    assert_eq!(set_game_payment_option::handler(&mut acc, 5, true).unwrap_err(), ProgramError::Store(StoreError::GamePaymentOptionMismatch));
    assert_eq!(acc.game_payment_option.base_price, 0);
    let mut acc = payment_accounts();
    acc.accepted_payment_token.mint = addr(34);
    assert_eq!(set_game_payment_option::handler(&mut acc, 5, true).unwrap_err(), ProgramError::Store(StoreError::PaymentTokenNotAllowed));
    let mut acc = payment_accounts();
    acc.accepted_payment_token.active = false;
    assert_eq!(set_game_payment_option::handler(&mut acc, 5, true).unwrap_err(), ProgramError::Store(StoreError::PaymentTokenDisabled));
    let mut acc = payment_accounts();
    acc.game_store_config.active = false;
    assert_eq!(set_game_payment_option::handler(&mut acc, 5, true).unwrap_err(), ProgramError::Store(StoreError::StoreGameInactive));
    let mut acc = payment_accounts();
    acc.publisher = Some(addr(35));
    assert_eq!(set_game_payment_option::handler(&mut acc, 5, true).unwrap_err(), ProgramError::Store(StoreError::Unauthorized));
    let mut acc = payment_accounts();
    acc.publisher = None;
    assert!(set_game_payment_option::handler(&mut acc, 5, true).is_ok());
}

#[test]
fn remove_game_payment_option_rules() {
    let option = GamePaymentOption { game: addr(GAME), mint: addr(MINT), base_price: 5, active: true, bump: 1 };
    let acc = remove_game_payment_option::RemoveGamePaymentOption {
        publisher: addr(PUBLISHER),
        authorized_source_program: source(),
        game: game(),
        mint: addr(MINT),
        game_payment_option: option,
    };
    let e = remove_game_payment_option::handler(&acc).unwrap();
    assert_eq!(e.mint, addr(MINT));
    let mut other = remove_game_payment_option::RemoveGamePaymentOption { mint: addr(36), ..acc };
    assert_eq!(remove_game_payment_option::handler(&other).unwrap_err(), ProgramError::Store(StoreError::PaymentTokenNotAllowed));
    other.publisher = addr(37);
    assert_eq!(remove_game_payment_option::handler(&other).unwrap_err(), ProgramError::Store(StoreError::Unauthorized));
}

fn discount_data(bps: Option<u16>, start: Option<i64>, end: Option<i64>) -> Vec<u8> {
    let mut d = Vec::new();
    match bps {
        None => d.push(0),
        Some(v) => {
            d.push(1);
            d.extend_from_slice(&v.to_le_bytes());
        }
    }
    for t in [start, end] {
        match t {
            None => d.push(0),
            Some(v) => {
                d.push(1);
                d.extend_from_slice(&v.to_le_bytes());
            }
        }
    }
    d
}

#[test]
fn set_and_clear_discount() {
    let mut acc = set_discount::SetDiscount {
        publisher: addr(PUBLISHER),
        authorized_source_program: source(),
        game: game(),
        registry_game: registry_game(GAME, 0),
        game_store_config: gsc(),
    };
    let e = set_discount::handler(&mut acc, &discount_data(Some(2_500), Some(100), Some(200))).unwrap();
    assert!(e.discount_bps_present && e.discount_starts_at_present && e.discount_expires_at_present);
    assert_eq!((e.discount_bps, e.discount_starts_at, e.discount_expires_at), (2_500, 100, 200));
    assert_eq!(acc.game_store_config.discount_bps.get(), Some(2_500));
    assert_eq!(acc.game_store_config.discount_starts_at.get(), Some(100));
    assert_eq!(acc.game_store_config.discount_expires_at.get(), Some(200));

    assert_eq!(
        set_discount::handler(&mut acc, &discount_data(Some(10_001), None, None)).unwrap_err(),
        ProgramError::Store(StoreError::InvalidDiscountBps)
    );
    assert_eq!(
        set_discount::handler(&mut acc, &discount_data(Some(1), Some(5), Some(5))).unwrap_err(),
        ProgramError::Store(StoreError::InvalidDiscountWindow)
    );
    assert_eq!(set_discount::handler(&mut acc, &[1u8, 0]).unwrap_err(), ProgramError::InvalidInstructionData);
    assert_eq!(acc.game_store_config.discount_bps.get(), Some(2_500));

    let e = set_discount::handler(&mut acc, &discount_data(Some(10), None, Some(-4))).unwrap();
    assert!(!e.discount_starts_at_present);
    assert_eq!(e.discount_starts_at, 0);
    assert_eq!(acc.game_store_config.discount_starts_at.get(), None);
    assert_eq!(acc.game_store_config.discount_expires_at.get(), Some(-4));

    let mut clear = clear_discount::ClearDiscount {
        publisher: addr(PUBLISHER),
        authorized_source_program: source(),
        game: game(),
        game_store_config: acc.game_store_config,
    };
    let e = clear_discount::handler(&mut clear).unwrap();
    assert_eq!(e.game, addr(GAME));
    assert_eq!(clear.game_store_config.discount_bps.get(), None);
    assert_eq!(clear.game_store_config.discount_expires_at.get(), None);
    assert_eq!(
        game_store::store::instructions::buy_game::compute_final_price(1_000, &clear.game_store_config, -4),
        Ok(1_000)
    );
    clear.publisher = addr(38);
    assert_eq!(clear_discount::handler(&mut clear).unwrap_err(), ProgramError::Store(StoreError::Unauthorized));
}

#[test]
fn set_referral_bps_normalizes_zero() {
    let mut acc = set_referral_bps::SetReferralBps {
        publisher: addr(PUBLISHER),
        store_config: store_config(),
        authorized_source_program: source(),
        game: game(),
        game_store_config: gsc(),
    };
    let e = set_referral_bps::handler(&mut acc, &[1, 0xD0, 0x07]).unwrap();
    assert!(e.referral_bps_present);
    assert_eq!(e.referral_bps, 2_000);
    assert_eq!(acc.game_store_config.referral_bps.get(), Some(2_000));
    let e = set_referral_bps::handler(&mut acc, &[1, 0, 0]).unwrap();
    assert!(!e.referral_bps_present);
    assert_eq!(acc.game_store_config.referral_bps.get(), None);
    assert_eq!(
        set_referral_bps::handler(&mut acc, &[1, 0xD1, 0x07]).unwrap_err(),
        ProgramError::Store(StoreError::ReferralAboveMax)
    );
    assert_eq!(set_referral_bps::handler(&mut acc, &[2]).unwrap_err(), ProgramError::InvalidInstructionData);
    assert!(set_referral_bps::handler(&mut acc, &[0]).is_ok());
}
