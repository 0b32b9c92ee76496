//! Names an affiliate of a game and its share.
use vstd::prelude::*;
use crate::address::Address;
use crate::store::constants::MAX_FEE_BPS;
use crate::store::states::GameStoreError;

verus! {

/// An affiliate's share of a game's sales.
#[derive(Clone, Copy, Debug)]
pub struct AffiliateAccount {
    pub game: Address,
    pub affiliate: Address,
    pub share_bps: u16,
    pub bump: u8,
}

/// The accounts of `set_affiliate`.
pub struct SetAffiliate {
    pub pgc_game_state: Address,
    pub affiliate: Address,
    pub affiliate_account: AffiliateAccount,
    pub affiliate_account_bump: u8,
}

/// Records the affiliate and its share, which is at most 100%.
pub fn handler(accounts: &mut SetAffiliate, share_bps: u16) -> (r: Result<(), GameStoreError>)
    ensures
        share_bps > MAX_FEE_BPS ==> r == Err::<(), GameStoreError>(GameStoreError::InvalidDiscountBps)
            && final(accounts).affiliate_account == old(accounts).affiliate_account,
        share_bps <= MAX_FEE_BPS ==> r is Ok && final(accounts).affiliate_account == (AffiliateAccount {
            game: old(accounts).pgc_game_state,
            affiliate: old(accounts).affiliate,
            share_bps,
            bump: old(accounts).affiliate_account_bump,
        }),
        final(accounts).pgc_game_state == old(accounts).pgc_game_state,
        final(accounts).affiliate == old(accounts).affiliate,
{
    if share_bps > MAX_FEE_BPS {
        return Err(GameStoreError::InvalidDiscountBps);
    }
    accounts.affiliate_account = AffiliateAccount {
        game: accounts.pgc_game_state,
        affiliate: accounts.affiliate,
        share_bps,
        bump: accounts.affiliate_account_bump,
    };
    Ok(())
}

} // verus!
