use anchor_lang::prelude::Pubkey;
use game_store::address::Address;
use game_store::factory::errors::{FactoryError, FactoryFailure};
use game_store::factory::instructions::create_game::{
    self, trimmed_is_empty, CreateGame, FactoryConstants, GameTerms,
};
use game_store::factory::instructions::views::{get_game_store, get_governance, get_registry, GetFactoryView};
use game_store::factory::instructions::{initialize, set_game_store, set_governance, set_registry};
use game_store::factory::state::FactoryState;
use sha2::Digest;

fn addr(n: u8) -> Address {
    Address::new_from_array([n; 32])
}

fn state() -> FactoryState {
    FactoryState { bump: 254, registry: addr(2), game_store: addr(3), governance: addr(1) }
}

fn constants() -> FactoryConstants {
    FactoryConstants {
        factory_state_seed: b"factory_state".to_vec(),
        factory_mint_seed: b"factory_mint".to_vec(),
        max_game_id_len: 32,
        max_metadata_uri_len: 64,
    }
}

fn terms() -> GameTerms {
    GameTerms { initial_price: 500, initial_price_currency: addr(30), registration_payment_method: addr(31) }
}

fn program() -> Address {
    addr(77)
}

fn mint_for(game_id: &str) -> (Address, u8, Vec<u8>) {
    let digest = sha2::Sha256::digest(game_id.as_bytes()).to_vec();
    let (k, bump) = Pubkey::find_program_address(
        &[b"factory_mint".as_slice(), digest.as_slice()],
        &Pubkey::new_from_array(program().bytes),
    );
    (Address::new_from_array(k.to_bytes()), bump, digest)
}

fn create_accounts(mint: Address) -> CreateGame {
    CreateGame {
        publisher: addr(10),
        factory_state: state(),
        mint,
        pgc_game_state: addr(11),
        registry_state: addr(2),
        registry_treasury: addr(12),
        treasury: addr(12),
        game_store: addr(3),
        program_id: program(),
    }
}

#[test]
fn initialize_rejects_zero_addresses() {
    let a = initialize::Initialize { payer: addr(9), factory_state_bump: 250 };
    let z = Address::zero();
    assert_eq!(
        initialize::handler(&a, z, addr(2), addr(3)).err(),
        Some(FactoryFailure::Factory(FactoryError::InvalidGovernance))
    );
    assert_eq!(
        initialize::handler(&a, addr(1), z, addr(3)).err(),
        Some(FactoryFailure::Factory(FactoryError::InvalidRegistry))
    );
    assert_eq!(
        initialize::handler(&a, addr(1), addr(2), z).err(),
        Some(FactoryFailure::Factory(FactoryError::InvalidGameStore))
    );
    let (s, e) = initialize::handler(&a, addr(1), addr(2), addr(3)).unwrap();
    assert_eq!(s.bump, 250);
    assert_eq!(s.governance, addr(1));
    assert_eq!(s.registry, addr(2));
    assert_eq!(s.game_store, addr(3));
    assert_eq!(e.governance, addr(1));
    assert_eq!(e.registry, addr(2));
    assert_eq!(e.game_store, addr(3));
}

#[test]
fn setters_need_governance_and_a_nonzero_address() {
    let mut a = set_registry::SetRegistry { governance: addr(9), factory_state: state() };
    assert_eq!(
        set_registry::handler(&mut a, addr(5)).err(),
        Some(FactoryFailure::Factory(FactoryError::Unauthorized))
    );
    assert_eq!(a.factory_state.registry, addr(2));
    a.governance = addr(1);
    assert_eq!(
        set_registry::handler(&mut a, Address::zero()).err(),
        Some(FactoryFailure::Factory(FactoryError::InvalidRegistry))
    );
    let e = set_registry::handler(&mut a, addr(5)).unwrap();
    assert_eq!(e.old_registry, addr(2));
    assert_eq!(e.new_registry, addr(5));
    assert_eq!(a.factory_state.registry, addr(5));

    let mut b = set_game_store::SetGameStore { governance: addr(1), factory_state: state() };
    assert_eq!(
        set_game_store::handler(&mut b, Address::zero()).err(),
        Some(FactoryFailure::Factory(FactoryError::InvalidGameStore))
    );
    let e = set_game_store::handler(&mut b, addr(6)).unwrap();
    assert_eq!(e.old_game_store, addr(3));
    assert_eq!(e.new_game_store, addr(6));
    assert_eq!(b.factory_state.game_store, addr(6));

    let mut c = set_governance::SetGovernance { governance: addr(8), factory_state: state() };
    assert_eq!(
        set_governance::handler(&mut c, addr(7)).err(),
        Some(FactoryFailure::Factory(FactoryError::Unauthorized))
    );
    c.governance = addr(1);
    assert_eq!(
        set_governance::handler(&mut c, Address::zero()).err(),
        Some(FactoryFailure::Factory(FactoryError::InvalidGovernance))
    );
    let e = set_governance::handler(&mut c, addr(7)).unwrap();
    assert_eq!(e.old_governance, addr(1));
    assert_eq!(e.new_governance, addr(7));
    assert_eq!(c.factory_state.governance, addr(7));
}

#[test]
fn views_read_the_state() {
    let v = GetFactoryView { factory_state: state() };
    assert_eq!(get_registry(&v), addr(2));
    assert_eq!(get_game_store(&v), addr(3));
    assert_eq!(get_governance(&v), addr(1));
}

#[test]
fn blank_texts() {
    assert!(trimmed_is_empty(""));
    assert!(trimmed_is_empty(" \t\n"));
    assert!(trimmed_is_empty("\u{3000}\u{a0}"));
    assert!(!trimmed_is_empty(" a "));
    assert!(!trimmed_is_empty("\u{200b}"));
}

#[test]
fn create_game_checks_accounts_first() {
    let (mint, _, _) = mint_for("chess");
    let mut a = create_accounts(mint);
    a.registry_state = addr(40);
    let r = create_game::handler(&a, &constants(), String::new(), String::new(), 500, addr(30), addr(31));
    assert_eq!(r.err(), Some(FactoryFailure::ConstraintAddress));
    let mut a = create_accounts(mint);
    a.treasury = addr(41);
    let r = create_game::handler(&a, &constants(), "chess".to_string(), "uri".to_string(), 500, addr(30), addr(31));
    assert_eq!(r.err(), Some(FactoryFailure::ConstraintAddress));
    let mut a = create_accounts(mint);
    a.game_store = addr(42);
    let r = create_game::handler(&a, &constants(), "chess".to_string(), "uri".to_string(), 500, addr(30), addr(31));
    assert_eq!(r.err(), Some(FactoryFailure::ConstraintAddress));
}

#[test]
fn create_game_checks_id_and_uri() {
    let (mint, _, _) = mint_for("chess");
    let a = create_accounts(mint);
    let c = constants();
    let r = create_game::handler(&a, &c, " \u{3000} ".to_string(), "uri".to_string(), 500, addr(30), addr(31));
    assert_eq!(r.err(), Some(FactoryFailure::Factory(FactoryError::EmptyGameId)));
    let r = create_game::handler(&a, &c, "chess".to_string(), "\n".to_string(), 500, addr(30), addr(31));
    assert_eq!(r.err(), Some(FactoryFailure::Factory(FactoryError::EmptyMetadataUri)));
    let r = create_game::handler(&a, &c, "x".repeat(33), "uri".to_string(), 500, addr(30), addr(31));
    assert_eq!(r.err(), Some(FactoryFailure::Factory(FactoryError::GameIdTooLong)));
    // 11 characters of three bytes each: 33 bytes.
    let r = create_game::handler(&a, &c, "\u{20ac}".repeat(11), "uri".to_string(), 500, addr(30), addr(31));
    assert_eq!(r.err(), Some(FactoryFailure::Factory(FactoryError::GameIdTooLong)));
    let r = create_game::handler(&a, &c, "chess".to_string(), "u".repeat(65), 500, addr(30), addr(31));
    assert_eq!(r.err(), Some(FactoryFailure::Factory(FactoryError::MetadataUriTooLong)));
    let r = create_game::handler(&a, &c, "checkers".to_string(), "uri".to_string(), 500, addr(30), addr(31));
    assert_eq!(r.err(), Some(FactoryFailure::Factory(FactoryError::InvalidMint)));
}

#[test]
fn create_game_plans_the_calls() {
    let (mint, bump, digest) = mint_for("chess");
    let a = create_accounts(mint);
    let g = create_game::handler(&a, &constants(), "chess".to_string(), "ipfs://chess".to_string(), 500, addr(30), addr(31)).unwrap();
    assert_eq!(g.mint_signer_seeds, vec![b"factory_mint".to_vec(), digest, vec![bump]]);
    assert_eq!(g.factory_signer_seeds, vec![b"factory_state".to_vec(), vec![254]]);
    assert_eq!(g.license_initialize.game_id, "chess");
    assert_eq!(g.license_initialize.publisher, addr(10));
    assert_eq!(g.license_initialize.metadata_uri, "ipfs://chess");
    assert_eq!(g.set_minter.account, addr(3));
    assert!(g.set_minter.enabled);
    assert_eq!(g.registration.game_id, "chess");
    assert_eq!(g.registration.game, addr(11));
    assert_eq!(g.registration.publisher, addr(10));
    assert_eq!(g.registration.payment_method, addr(31));
    assert_eq!(g.initial_price.game_id, "chess");
    assert_eq!(g.initial_price.price, 500);
    assert_eq!(g.initial_price.currency, addr(30));
    assert_eq!(g.game, addr(11));
    assert_eq!(g.event.game_id, "chess");
    assert_eq!(g.event.metadata_uri, "ipfs://chess");
    assert_eq!(g.event.publisher, addr(10));
    assert_eq!(g.event.game, addr(11));
    assert_eq!(g.event.mint, mint);
    let exact = create_game::handler(&a, &constants(), "chess".to_string(), "u".repeat(64), 500, addr(30), addr(31));
    assert!(exact.is_ok());
}

#[test]
fn plan_follows_the_found_mint() {
    let a = create_accounts(addr(20));
    let c = constants();
    let r = create_game::plan_game_creation(&a, &c, "g".to_string(), "u".to_string(), terms(), vec![1, 2], None);
    assert_eq!(r.err(), Some(FactoryFailure::NoViableBump));
    let r = create_game::plan_game_creation(
        &a,
        &c,
        "g".to_string(),
        "u".to_string(),
        terms(),
        vec![1, 2],
        Some((addr(21), 250)),
    );
    assert_eq!(r.err(), Some(FactoryFailure::Factory(FactoryError::InvalidMint)));
    let g = create_game::plan_game_creation(
        &a,
        &c,
        "g".to_string(),
        "u".to_string(),
        terms(),
        vec![1, 2],
        Some((addr(20), 250)),
    )
    .unwrap();
    assert_eq!(g.mint_signer_seeds, vec![b"factory_mint".to_vec(), vec![1, 2], vec![250]]);
    assert_eq!(g.event.mint, addr(20));
}
