//! Accepts a mint as a means of payment.
use vstd::prelude::*;
use crate::address::{keys_eq, Address};
use crate::store::errors::ProgramError;
use crate::store::events::PaymentTokenAdded;
use crate::store::state::{AcceptedPaymentToken, StoreConfig};

verus! {

/// The accounts of `add_payment_token`: the signer, the configuration, the
/// mint, and the bump of the new record.
pub struct AddPaymentToken {
    pub authority: Address,
    pub store_config: StoreConfig,
    pub mint: Address,
    pub accepted_payment_token_bump: u8,
}

/// Creates an active record for the mint. Only the authority may.
pub fn handler(accounts: &AddPaymentToken) -> (r: Result<
    (AcceptedPaymentToken, PaymentTokenAdded),
    ProgramError,
>)
    ensures
        accounts.store_config.authority@ != accounts.authority@ ==> r == Err::<
            (AcceptedPaymentToken, PaymentTokenAdded),
            ProgramError,
        >(ProgramError::HasOneMismatch),
        accounts.store_config.authority@ == accounts.authority@ ==> r == Ok::<
            (AcceptedPaymentToken, PaymentTokenAdded),
            ProgramError,
        >((
            AcceptedPaymentToken {
                mint: accounts.mint,
                active: true,
                bump: accounts.accepted_payment_token_bump,
            },
            PaymentTokenAdded { mint: accounts.mint },
        )),
{
    if !keys_eq(&accounts.store_config.authority, &accounts.authority) {
        return Err(ProgramError::HasOneMismatch);
    }
    let record = AcceptedPaymentToken {
        mint: accounts.mint,
        active: true,
        bump: accounts.accepted_payment_token_bump,
    };
    Ok((record, PaymentTokenAdded { mint: accounts.mint }))
}

} // verus!
