//! Offers a game by subscription.
use vstd::prelude::*;
use crate::address::Address;

verus! {

/// A game's subscription: price, duration and whether it is offered.
#[derive(Clone, Copy, Debug)]
pub struct SubscriptionAccount {
    pub game: Address,
    pub price: u64,
    pub duration: i64,
    pub enabled: bool,
    pub bump: u8,
}

/// The accounts of `set_subscription`.
pub struct SetSubscription {
    pub pgc_game_state: Address,
    pub subscription_account: SubscriptionAccount,
    pub subscription_account_bump: u8,
}

/// Records the subscription's terms.
pub fn handler(accounts: &mut SetSubscription, price: u64, duration: i64, enabled: bool)
    ensures
        final(accounts).subscription_account == (SubscriptionAccount {
            game: old(accounts).pgc_game_state,
            price,
            duration,
            enabled,
            bump: old(accounts).subscription_account_bump,
        }),
        final(accounts).pgc_game_state == old(accounts).pgc_game_state,
{
    accounts.subscription_account = SubscriptionAccount {
        game: accounts.pgc_game_state,
        price,
        duration,
        enabled,
        bump: accounts.subscription_account_bump,
    };
}

} // verus!
