//! Prices a game of the license program in the simpler flow.
use vstd::prelude::*;
use crate::address::Address;
use crate::store::listing::PriceAccount;

verus! {

/// The accounts of `set_price`: the game's state in the license program,
/// its price account and the account's bump.
pub struct SetPrice {
    pub pgc_game_state: Address,
    pub price_account: PriceAccount,
    pub price_account_bump: u8,
}

/// Writes the game's price and currency.
pub fn handler(accounts: &mut SetPrice, price: u64, currency: Address)
    ensures
        final(accounts).price_account == (PriceAccount {
            game: old(accounts).pgc_game_state,
            price,
            currency,
            bump: old(accounts).price_account_bump,
        }),
        final(accounts).pgc_game_state == old(accounts).pgc_game_state,
{
    accounts.price_account = PriceAccount {
        game: accounts.pgc_game_state,
        price,
        currency,
        bump: accounts.price_account_bump,
    };
}

} // verus!
