//! Limits of the price list and ledger, and the mark of native SOL.
use vstd::prelude::*;
use crate::address::{keys_eq, zero_bytes, Address};
use crate::derive::system_program_id;

verus! {

/// The longest game id, in bytes.
pub const MAX_GAME_ID_LEN: usize = 128;
/// The most prices the list holds.
pub const MAX_PRICE_CONFIGS: usize = 16;
/// The most balances the ledger holds.
pub const MAX_PUBLISHER_BALANCES: usize = 32;
/// The largest fee, in basis points.
pub const MAX_FEE_BPS: u16 = 10_000;

/// The seed of the price list's address: "game_store_state".
pub fn store_state_seed() -> (s: Vec<u8>)
    ensures
        s@ == seq![103u8, 97, 109, 101, 95, 115, 116, 111, 114, 101, 95, 115, 116, 97, 116, 101],
{
    vec![103u8, 97, 109, 101, 95, 115, 116, 111, 114, 101, 95, 115, 116, 97, 116, 101]
}

/// A payment method names native SOL when it is the System program.
pub fn is_native_sol_payment_method(payment_method: &Address) -> (r: bool)
    ensures
        r == (payment_method@ == zero_bytes()),
{
    keys_eq(payment_method, &system_program_id())
}

} // verus!
