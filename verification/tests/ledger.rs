use game_store::address::Address;
use game_store::store::constants::{is_native_sol_payment_method, store_state_seed, MAX_PRICE_CONFIGS, MAX_PUBLISHER_BALANCES};
use game_store::store::instructions::views::{
    get_final_price, get_governance, get_platform_fee, get_price_config, get_publisher_balance, get_registry,
    get_treasury, GetStoreView,
};
use game_store::store::instructions::{set_governance, withdraw_sol};
use game_store::store::states::{GameStoreError, PriceConfig, StoreState};

fn addr(n: u8) -> Address {
    Address::new_from_array([n; 32])
}

fn empty_state() -> StoreState {
    StoreState {
        bump: 1,
        registry: addr(2),
        governance: addr(3),
        treasury: addr(4),
        platform_fee_bps: 250,
        prices: Vec::new(),
        publisher_balances: Vec::new(),
    }
}

#[test]
fn native_sol_is_the_system_program() {
    assert!(is_native_sol_payment_method(&Address::zero()));
    assert!(!is_native_sol_payment_method(&addr(1)));
    assert_eq!(store_state_seed(), b"game_store_state".to_vec());
}

#[test]
fn upsert_then_read_a_price() {
    let mut s = empty_state();
    assert_eq!(s.price_index("chess"), None);
    assert!(s.price_config("chess").is_none());
    assert_eq!(s.upsert_price("chess".to_string(), 500, addr(9)), Ok(()));
    assert_eq!(s.upsert_price("go".to_string(), 700, Address::zero()), Ok(()));
    assert_eq!(s.price_index("chess"), Some(0));
    assert_eq!(s.price_index("go"), Some(1));
    assert_eq!(s.set_discount("chess", 1_000), Ok(()));
    assert_eq!(s.upsert_price("chess".to_string(), 800, addr(10)), Ok(()));
    assert_eq!(s.prices.len(), 2);
    let c = s.price_config("chess").unwrap();
    assert_eq!((c.price, c.currency, c.discount_bps), (800, addr(10), 1_000));
    assert_eq!(s.set_discount("poker", 5), Err(GameStoreError::PriceConfigNotFound));
}

#[test]
fn price_list_is_bounded() {
    let mut s = empty_state();
    for i in 0..MAX_PRICE_CONFIGS {
        assert_eq!(s.upsert_price(format!("game{i}"), 1, addr(1)), Ok(()));
    }
    assert_eq!(s.upsert_price("one more".to_string(), 1, addr(1)), Err(GameStoreError::PriceConfigLimitReached));
    assert_eq!(s.prices.len(), MAX_PRICE_CONFIGS);
    assert_eq!(s.upsert_price("game3".to_string(), 2, addr(1)), Ok(()));
    assert_eq!(s.price_config("game3").unwrap().price, 2);
}

#[test]
fn final_price_takes_the_discount() {
    let p = PriceConfig { game_id: "g".to_string(), price: 1_000, currency: addr(1), discount_bps: 2_500 };
    assert_eq!(StoreState::final_price(&p), 750);
    let p = PriceConfig { game_id: "g".to_string(), price: 999, currency: addr(1), discount_bps: 1 };
    assert_eq!(StoreState::final_price(&p), 999);
    let p = PriceConfig { game_id: "g".to_string(), price: u64::MAX, currency: addr(1), discount_bps: 10_000 };
    assert_eq!(StoreState::final_price(&p), 0);
}

#[test]
fn credit_then_take_a_balance() {
    let mut s = empty_state();
    assert_eq!(s.publisher_balance(&addr(5), &addr(6)), 0);
    assert_eq!(s.credit_publisher_balance(addr(5), addr(6), 0), Ok(()));
    assert!(s.publisher_balances.is_empty());
    assert_eq!(s.credit_publisher_balance(addr(5), addr(6), 100), Ok(()));
    assert_eq!(s.credit_publisher_balance(addr(5), addr(6), 50), Ok(()));
    assert_eq!(s.credit_publisher_balance(addr(5), addr(7), 9), Ok(()));
    assert_eq!(s.publisher_balance(&addr(5), &addr(6)), 150);
    assert_eq!(s.publisher_balance(&addr(5), &addr(7)), 9);
    assert_eq!(s.credit_publisher_balance(addr(5), addr(6), u64::MAX), Ok(()));
    assert_eq!(s.publisher_balance(&addr(5), &addr(6)), u64::MAX);
    assert_eq!(s.take_publisher_balance(addr(5), addr(6)), Ok(u64::MAX));
    assert_eq!(s.publisher_balance(&addr(5), &addr(6)), 0);
    assert_eq!(s.take_publisher_balance(addr(5), addr(6)), Err(GameStoreError::EmptyPublisherBalance));
    assert_eq!(s.take_publisher_balance(addr(8), addr(6)), Err(GameStoreError::PublisherBalanceNotFound));
    assert_eq!(s.publisher_balance(&addr(5), &addr(7)), 9);
}

#[test]
fn ledger_is_bounded() {
    let mut s = empty_state();
    for i in 0..MAX_PUBLISHER_BALANCES {
        assert_eq!(s.credit_publisher_balance(addr(i as u8), addr(200), 1), Ok(()));
    }
    assert_eq!(s.credit_publisher_balance(addr(250), addr(200), 1), Err(GameStoreError::PublisherBalanceLimitReached));
    assert_eq!(s.credit_publisher_balance(addr(3), addr(200), 1), Ok(()));
    assert_eq!(s.publisher_balance(&addr(3), &addr(200)), 2);
}

#[test]
fn withdraw_sol_needs_rent_cover() {
    let mut state = empty_state();
    state.credit_publisher_balance(addr(5), Address::zero(), 1_000).unwrap();
    let mut a = withdraw_sol::WithdrawSol {
        publisher: addr(5),
        store_state: state,
        store_lamports: 1_500,
        rent_exempt_minimum: 600,
    };
    assert_eq!(withdraw_sol::handler(&mut a).unwrap_err(), GameStoreError::InsufficientStoreLamports);
    assert_eq!(a.store_state.publisher_balance(&addr(5), &Address::zero()), 1_000);
    a.store_lamports = 1_600;
    let w = withdraw_sol::handler(&mut a).unwrap();
    assert_eq!(w.publisher, addr(5));
    assert_eq!(w.amount, 1_000);
    assert_eq!(a.store_state.publisher_balance(&addr(5), &Address::zero()), 0);
    assert_eq!(withdraw_sol::handler(&mut a).unwrap_err(), GameStoreError::EmptyPublisherBalance);
    a.publisher = addr(6);
    assert_eq!(withdraw_sol::handler(&mut a).unwrap_err(), GameStoreError::PublisherBalanceNotFound);
}

#[test]
fn store_governance_changes() {
    let mut a = set_governance::SetGovernance { governance: addr(9), store_state: empty_state() };
    assert_eq!(set_governance::handler(&mut a, addr(7)).unwrap_err(), GameStoreError::Unauthorized);
    a.governance = addr(3);
    assert_eq!(set_governance::handler(&mut a, Address::zero()).unwrap_err(), GameStoreError::InvalidGovernance);
    let e = set_governance::handler(&mut a, addr(7)).unwrap();
    assert_eq!(e.old_governance, addr(3));
    assert_eq!(e.new_governance, addr(7));
    assert_eq!(a.store_state.governance, addr(7));
}

#[test]
fn store_views() {
    let mut state = empty_state();
    state.upsert_price("chess".to_string(), 1_000, addr(9)).unwrap();
    state.set_discount("chess", 2_000).unwrap();
    state.credit_publisher_balance(addr(5), addr(9), 42).unwrap();
    let v = GetStoreView { store_state: state };
    let c = get_price_config(&v, "chess".to_string()).unwrap();
    assert_eq!((c.game_id.as_str(), c.price, c.currency, c.discount_bps), ("chess", 1_000, addr(9), 2_000));
    assert_eq!(get_price_config(&v, "go".to_string()).unwrap_err(), GameStoreError::PriceConfigNotFound);
    assert_eq!(get_final_price(&v, "chess".to_string()), Ok(800));
    assert_eq!(get_final_price(&v, "go".to_string()), Err(GameStoreError::PriceConfigNotFound));
    assert_eq!(get_publisher_balance(&v, addr(5), addr(9)), 42);
    assert_eq!(get_publisher_balance(&v, addr(5), addr(8)), 0);
    assert_eq!(get_platform_fee(&v), 250);
    assert_eq!(get_treasury(&v), addr(4));
    assert_eq!(get_governance(&v), addr(3));
    assert_eq!(get_registry(&v), addr(2));
}

#[test]
fn ledger_operations_keep_the_other_fields() {
    let mut s = empty_state();
    s.upsert_price("chess".to_string(), 5, addr(9)).unwrap();
    s.upsert_price("chess".to_string(), 5, addr(9)).unwrap();
    assert_eq!(s.prices.len(), 1);
    s.credit_publisher_balance(addr(5), addr(6), 0).unwrap();
    assert!(s.publisher_balances.is_empty());
    assert_eq!(s.take_publisher_balance(addr(5), addr(6)), Err(GameStoreError::PublisherBalanceNotFound));
    assert_eq!(s.set_discount("go", 10), Err(GameStoreError::PriceConfigNotFound));
    assert_eq!(s.set_discount("chess", 20_000), Ok(()));
    assert_eq!(s.price_config("chess").unwrap().discount_bps, 20_000);
    assert_eq!((s.bump, s.registry, s.governance, s.treasury, s.platform_fee_bps), (1, addr(2), addr(3), addr(4), 250));
}
