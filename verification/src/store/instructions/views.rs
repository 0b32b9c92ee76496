//! Read-only queries of the price list and ledger.
use vstd::prelude::*;
use crate::address::Address;
use crate::store::states::{
    balance_of, first_price, has_price, is_first_price, price_of, GameStoreError, PriceConfig,
    StoreState,
};

verus! {

/// The accounts of the views: the price list and ledger.
pub struct GetStoreView {
    pub store_state: StoreState,
}

/// A copy of the game's first price.
pub fn get_price_config(accounts: &GetStoreView, game_id: String) -> (r: Result<
    PriceConfig,
    GameStoreError,
>)
    ensures
        !has_price(accounts.store_state.prices@, game_id@) ==> r == Err::<PriceConfig, GameStoreError>(
            GameStoreError::PriceConfigNotFound,
        ),
        has_price(accounts.store_state.prices@, game_id@) ==> r == Ok::<PriceConfig, GameStoreError>(
            accounts.store_state.prices@[first_price(accounts.store_state.prices@, game_id@)],
        ),
{
    match accounts.store_state.price_config(game_id.as_str()) {
        None => Err(GameStoreError::PriceConfigNotFound),
        Some(c) => {
            proof {
                let i = choose|i: int| is_first_price(accounts.store_state.prices@, game_id@, i) && *c
                    == accounts.store_state.prices@[i];
                lemma_first_is_chosen(accounts.store_state.prices@, game_id@, i);
            }
            Ok(PriceConfig {
                game_id: c.game_id.clone(),
                price: c.price,
                currency: c.currency,
                discount_bps: c.discount_bps,
            })
        },
    }
}

proof fn lemma_first_is_chosen(prices: Seq<PriceConfig>, game_id: Seq<char>, i: int)
    requires
        is_first_price(prices, game_id, i),
    ensures
        first_price(prices, game_id) == i,
{
    let k = first_price(prices, game_id);
    assert(is_first_price(prices, game_id, k));
    if k < i {
        assert(prices[k].game_id@ != game_id);
    } else if k > i {
        assert(prices[i].game_id@ != game_id);
    }
}

/// What the ledger owes the publisher in the token.
pub fn get_publisher_balance(accounts: &GetStoreView, publisher: Address, token: Address) -> (r: u64)
    ensures
        r == balance_of(accounts.store_state.publisher_balances@, publisher@, token@),
{
    accounts.store_state.publisher_balance(&publisher, &token)
}

/// The platform fee.
pub fn get_platform_fee(accounts: &GetStoreView) -> (r: u16)
    ensures
        r == accounts.store_state.platform_fee_bps,
{
    accounts.store_state.platform_fee_bps
}

/// The treasury.
pub fn get_treasury(accounts: &GetStoreView) -> (r: Address)
    ensures
        r == accounts.store_state.treasury,
{
    accounts.store_state.treasury
}

/// The governance.
pub fn get_governance(accounts: &GetStoreView) -> (r: Address)
    ensures
        r == accounts.store_state.governance,
{
    accounts.store_state.governance
}

/// The registry.
pub fn get_registry(accounts: &GetStoreView) -> (r: Address)
    ensures
        r == accounts.store_state.registry,
{
    accounts.store_state.registry
}

/// The game's price less its discount. The discount may not pass the
/// price (where it does, the computation underflows).
pub fn get_final_price(accounts: &GetStoreView, game_id: String) -> (r: Result<u64, GameStoreError>)
    requires
        forall|i: int|
            is_first_price(accounts.store_state.prices@, game_id@, i) ==> accounts.store_state.prices@[i].price
                * accounts.store_state.prices@[i].discount_bps / 10_000
                <= accounts.store_state.prices@[i].price,
    ensures
        match price_of(accounts.store_state.prices@, game_id@) {
            None => r == Err::<u64, GameStoreError>(GameStoreError::PriceConfigNotFound),
            Some((price, _, discount_bps)) => r == Ok::<u64, GameStoreError>(
                (price - price * discount_bps / 10_000) as u64,
            ),
        },
{
    match accounts.store_state.price_config(game_id.as_str()) {
        None => Err(GameStoreError::PriceConfigNotFound),
        Some(c) => {
            proof {
                let i = choose|i: int| is_first_price(accounts.store_state.prices@, game_id@, i) && *c
                    == accounts.store_state.prices@[i];
                lemma_first_is_chosen(accounts.store_state.prices@, game_id@, i);
            }
            Ok(StoreState::final_price(c))
        },
    }
}

} // verus!
