//! What the store's instructions report.
use vstd::prelude::*;
use crate::address::Address;

verus! {

#[derive(Clone, Copy, Debug)]
pub struct StoreInitialized {
    pub authority: Address,
    pub treasury: Address,
}

#[derive(Clone, Copy, Debug)]
pub struct TreasuryUpdated {
    pub treasury: Address,
}

#[derive(Clone, Copy, Debug)]
pub struct PlatformFeeUpdated {
    pub platform_fee_bps: u16,
}

#[derive(Clone, Copy, Debug)]
pub struct DefaultReferralUpdated {
    pub default_referral_bps: u16,
}

#[derive(Clone, Copy, Debug)]
pub struct MaxReferralUpdated {
    pub max_referral_bps: u16,
}

#[derive(Clone, Copy, Debug)]
pub struct AuthorizedProgramAdded {
    pub program_id: Address,
    pub role: u8,
}

#[derive(Clone, Copy, Debug)]
pub struct AuthorizedProgramUpdated {
    pub program_id: Address,
    pub active: bool,
    pub role: u8,
}

#[derive(Clone, Copy, Debug)]
pub struct PaymentTokenAdded {
    pub mint: Address,
}

#[derive(Clone, Copy, Debug)]
pub struct PaymentTokenUpdated {
    pub mint: Address,
    pub active: bool,
}

#[derive(Clone, Copy, Debug)]
pub struct GameStoreConfigInitialized {
    pub game: Address,
    pub active: bool,
}

#[derive(Clone, Copy, Debug)]
pub struct GameStoreActiveUpdated {
    pub game: Address,
    pub active: bool,
}

#[derive(Clone, Copy, Debug)]
pub struct GamePaymentOptionSet {
    pub game: Address,
    pub mint: Address,
    pub base_price: u64,
    pub active: bool,
}

#[derive(Clone, Copy, Debug)]
pub struct GamePaymentOptionRemoved {
    pub game: Address,
    pub mint: Address,
}

#[derive(Clone, Copy, Debug)]
pub struct DiscountSet {
    pub game: Address,
    pub discount_bps_present: bool,
    pub discount_bps: u16,
    pub discount_starts_at_present: bool,
    pub discount_starts_at: i64,
    pub discount_expires_at_present: bool,
    pub discount_expires_at: i64,
}

#[derive(Clone, Copy, Debug)]
pub struct DiscountCleared {
    pub game: Address,
}

#[derive(Clone, Copy, Debug)]
pub struct ReferralBpsUpdated {
    pub game: Address,
    pub referral_bps_present: bool,
    pub referral_bps: u16,
}

#[derive(Clone, Copy, Debug)]
pub struct GamePurchased {
    pub buyer: Address,
    pub game: Address,
    pub payment_mint: Address,
    pub paid_amount: u64,
    pub final_price: u64,
    pub referrer: Address,
    pub referral_bps_applied: u16,
}

#[derive(Clone, Copy, Debug)]
pub struct PurchaseReceiptCreated {
    pub buyer: Address,
    pub game: Address,
    pub referrer: Address,
}

#[derive(Clone, Copy, Debug)]
pub struct StoreActorUpdated {
    pub old_store_actor: Address,
    pub new_store_actor: Address,
}

} // verus!
