//! Pays a publisher what the ledger owes them in native SOL.
use vstd::prelude::*;
use crate::address::{zero_bytes, Address};
use crate::derive::system_program_id;
use crate::store::states::{ledger_valid, saturating_sum, taken, GameStoreError, StoreState};

verus! {

/// The accounts of `withdraw_sol`: the signing publisher, the ledger, and
/// the ledger account's lamports and rent-exempt minimum.
pub struct WithdrawSol {
    pub publisher: Address,
    pub store_state: StoreState,
    pub store_lamports: u64,
    pub rent_exempt_minimum: u64,
}

/// What the withdrawal reports.
#[derive(Clone, Copy, Debug)]
pub struct NativeSolPublisherWithdrawn {
    pub publisher: Address,
    pub amount: u64,
}

/// Takes the publisher's SOL balance, which the ledger account must cover
/// above its rent-exempt minimum; the runtime then moves that many lamports
/// from the ledger account to the publisher.
pub fn handler(accounts: &mut WithdrawSol) -> (r: Result<NativeSolPublisherWithdrawn, GameStoreError>)
    ensures
        match taken(old(accounts).store_state.publisher_balances@, old(accounts).publisher@, zero_bytes()) {
            Err(e) => r == Err::<NativeSolPublisherWithdrawn, GameStoreError>(e)
                && final(accounts).store_state.publisher_balances@ == old(
                accounts,
            ).store_state.publisher_balances@,
            Ok((amount, after)) => if old(accounts).store_lamports < saturating_sum(
                old(accounts).rent_exempt_minimum,
                amount,
            ) {
                r == Err::<NativeSolPublisherWithdrawn, GameStoreError>(
                    GameStoreError::InsufficientStoreLamports,
                ) && final(accounts).store_state.publisher_balances@ == old(
                    accounts,
                ).store_state.publisher_balances@
            } else {
                r == Ok::<NativeSolPublisherWithdrawn, GameStoreError>(
                    NativeSolPublisherWithdrawn { publisher: old(accounts).publisher, amount },
                ) && final(accounts).store_state.publisher_balances@ == after
            },
        },
        final(accounts).store_state.prices@ == old(accounts).store_state.prices@,
        final(accounts).store_state.bump == old(accounts).store_state.bump,
        final(accounts).store_state.registry == old(accounts).store_state.registry,
        final(accounts).store_state.governance == old(accounts).store_state.governance,
        final(accounts).store_state.treasury == old(accounts).store_state.treasury,
        final(accounts).store_state.platform_fee_bps == old(accounts).store_state.platform_fee_bps,
        ledger_valid(old(accounts).store_state) ==> ledger_valid(final(accounts).store_state),
        final(accounts).publisher == old(accounts).publisher,
        final(accounts).store_lamports == old(accounts).store_lamports,
        final(accounts).rent_exempt_minimum == old(accounts).rent_exempt_minimum,
{
    let sol = system_program_id();
    let snapshot = accounts.store_state.publisher_balances.clone();
    let amount = accounts.store_state.take_publisher_balance(accounts.publisher, sol)?;
    let needed = accounts.rent_exempt_minimum.saturating_add(amount);
    if accounts.store_lamports < needed {
        accounts.store_state.publisher_balances = snapshot;
        return Err(GameStoreError::InsufficientStoreLamports);
    }
    Ok(NativeSolPublisherWithdrawn { publisher: accounts.publisher, amount })
}

} // verus!
