//! Pays a publisher their balance in lamports from the configuration
//! account.
use vstd::prelude::*;
use crate::address::Address;
use crate::store::listing::PublisherBalanceAccount;
use crate::store::states::GameStoreError;

verus! {

/// The accounts of `withdraw`.
pub struct Withdraw {
    pub publisher: Address,
    pub publisher_balance: PublisherBalanceAccount,
}

/// What the withdrawal reports.
#[derive(Clone, Copy, Debug)]
pub struct Withdrawal {
    pub publisher: Address,
    pub token: Address,
    pub amount: u64,
}

/// Empties a balance that is not empty; the runtime moves that many
/// lamports from the configuration account to the publisher.
pub fn handler(accounts: &mut Withdraw, token: Address) -> (r: Result<Withdrawal, GameStoreError>)
    ensures
        old(accounts).publisher_balance.amount == 0 ==> r == Err::<Withdrawal, GameStoreError>(
            GameStoreError::EmptyPublisherBalance,
        ) && *final(accounts) == *old(accounts),
        old(accounts).publisher_balance.amount > 0 ==> r == Ok::<Withdrawal, GameStoreError>(
            Withdrawal {
                publisher: old(accounts).publisher,
                token,
                amount: old(accounts).publisher_balance.amount,
            },
        ) && final(accounts).publisher_balance == (PublisherBalanceAccount {
            amount: 0,
            ..old(accounts).publisher_balance
        }),
        final(accounts).publisher == old(accounts).publisher,
{
    let amount = accounts.publisher_balance.amount;
    if amount == 0 {
        return Err(GameStoreError::EmptyPublisherBalance);
    }
    accounts.publisher_balance.amount = 0;
    Ok(Withdrawal { publisher: accounts.publisher, token, amount })
}

} // verus!
