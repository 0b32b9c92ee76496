//! Turns an accepted mint on or off.
use vstd::prelude::*;
use crate::address::{keys_eq, Address};
use crate::store::errors::ProgramError;
use crate::store::events::PaymentTokenUpdated;
use crate::store::state::{AcceptedPaymentToken, StoreConfig};

verus! {

/// The accounts of `update_payment_token`.
pub struct UpdatePaymentToken {
    pub authority: Address,
    pub store_config: StoreConfig,
    pub accepted_payment_token: AcceptedPaymentToken,
}

/// Sets whether the mint is accepted. Only the authority may.
pub fn handler(accounts: &mut UpdatePaymentToken, active: bool) -> (r: Result<
    PaymentTokenUpdated,
    ProgramError,
>)
    ensures
        old(accounts).store_config.authority@ != old(accounts).authority@ ==> r == Err::<
            PaymentTokenUpdated,
            ProgramError,
        >(ProgramError::HasOneMismatch) && *final(accounts) == *old(accounts),
        old(accounts).store_config.authority@ == old(accounts).authority@ ==> r == Ok::<
            PaymentTokenUpdated,
            ProgramError,
        >(PaymentTokenUpdated { mint: old(accounts).accepted_payment_token.mint, active })
            && final(accounts).accepted_payment_token == (AcceptedPaymentToken {
            active,
            ..old(accounts).accepted_payment_token
        }),
        final(accounts).authority == old(accounts).authority,
        final(accounts).store_config == old(accounts).store_config,
{
    if !keys_eq(&accounts.store_config.authority, &accounts.authority) {
        return Err(ProgramError::HasOneMismatch);
    }
    accounts.accepted_payment_token.active = active;
    Ok(PaymentTokenUpdated { mint: accounts.accepted_payment_token.mint, active })
}

} // verus!
