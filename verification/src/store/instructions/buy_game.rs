//! Sells a license: prices the game, splits the payment between the
//! treasury, the publisher and a referrer, and mints the license.
use vstd::prelude::*;
use crate::address::{address_bytes, keys_eq, zero_bytes, Address};
use crate::derive::{derived_address, find_program_address};
use crate::store::errors::{ProgramError, StoreError};
use crate::store::events::{GamePurchased, PurchaseReceiptCreated};
use crate::store::external::{
    license_seed, mint_license, pgl_game_publisher, registry_game_game, registry_game_status,
    AccountView, CpiCall, PglAuthorizedActor, PglGame, RegistryGame, RegistryGameStatus,
};
use crate::store::state::{
    decode_accepted_payment_token, decode_game_payment_option, AcceptedPaymentToken,
    AuthorizedProgram, GamePaymentOption, GameStoreConfig, PurchaseReceipt, StoreConfig,
    BPS_DENOMINATOR,
};

verus! {

/// `amount * bps / 10000`, rounded down.
pub open spec fn bps_of(amount: int, bps: int) -> int {
    amount * bps / 10_000
}

/// The share of `amount` that `bps` basis points make, rounded down;
/// `MathOverflow` where it does not fit in a `u64`.
pub fn bps_amount(amount: u64, bps: u16) -> (r: Result<u64, ProgramError>)
    ensures
        bps_of(amount as int, bps as int) <= u64::MAX ==> r == Ok::<u64, ProgramError>(
            bps_of(amount as int, bps as int) as u64,
        ),
        bps_of(amount as int, bps as int) > u64::MAX ==> r == Err::<u64, ProgramError>(
            ProgramError::Store(StoreError::MathOverflow),
        ),
{
    let a = amount as u128;
    let b = bps as u128;
    assert(a * b <= 0xFFFF_FFFF_FFFF_FFFFu128 * 0xFFFFu128) by (nonlinear_arith)
        requires
            a <= 0xFFFF_FFFF_FFFF_FFFFu128,
            b <= 0xFFFFu128,
    ;
    let product = a * b;
    let share = product / (BPS_DENOMINATOR as u128);
    if share > 0xFFFF_FFFF_FFFF_FFFFu128 {
        Err(ProgramError::Store(StoreError::MathOverflow))
    } else {
        Ok(share as u64)
    }
}

/// The price that a buyer pays: the base price, less the game's discount
/// while the discount window is open. A discount above 100% is an error.
pub open spec fn final_price_of(
    base_price: u64,
    discount_bps: Option<u16>,
    starts_at: Option<i64>,
    expires_at: Option<i64>,
    now: i64,
) -> Result<u64, StoreError> {
    match discount_bps {
        None => Ok(base_price),
        Some(bps) => if bps > 10_000 {
            Err(StoreError::InvalidDiscountBps)
        } else if starts_at is Some && now < starts_at->0 {
            Ok(base_price)
        } else if expires_at is Some && now > expires_at->0 {
            Ok(base_price)
        } else {
            Ok((base_price - bps_of(base_price as int, bps as int)) as u64)
        },
    }
}

/// Applies the game's discount, if one is set and open at `now`.
pub fn compute_final_price(base_price: u64, cfg: &GameStoreConfig, now: i64) -> (r: Result<
    u64,
    ProgramError,
>)
    ensures
        match final_price_of(
            base_price,
            cfg.discount_bps@,
            cfg.discount_starts_at@,
            cfg.discount_expires_at@,
            now,
        ) {
            Ok(p) => r == Ok::<u64, ProgramError>(p),
            Err(e) => r == Err::<u64, ProgramError>(ProgramError::Store(e)),
        },
        r matches Ok(p) ==> p <= base_price,
{
    let discount_bps = match cfg.discount_bps.get() {
        None => return Ok(base_price),
        Some(bps) => bps,
    };
    if discount_bps > 10_000 {
        return Err(ProgramError::Store(StoreError::InvalidDiscountBps));
    }
    if let Some(start) = cfg.discount_starts_at.get() {
        if now < start {
            return Ok(base_price);
        }
    }
    if let Some(end) = cfg.discount_expires_at.get() {
        if now > end {
            return Ok(base_price);
        }
    }
    let a = base_price as u128;
    let b = discount_bps as u128;
    assert(a * b <= a * 10_000) by (nonlinear_arith)
        requires
            b <= 10_000,
    ;
    assert(a * b / 10_000 <= a) by (nonlinear_arith)
        requires
            a * b <= a * 10_000,
    ;
    let discount_amount = ((a * b) / (BPS_DENOMINATOR as u128)) as u64;
    Ok(base_price - discount_amount)
}

/// The referral share of a purchase: none without a referrer; else the
/// game's own share, or the store's default where the game sets none or 0.
/// It may not pass the store's maximum, nor, with the platform fee, 100%.
pub open spec fn referral_bps_of(store_config: StoreConfig, game_referral_bps: Option<u16>, has_referrer: bool) -> Result<
    u16,
    StoreError,
> {
    if !has_referrer {
        Ok(0)
    } else {
        let effective = match game_referral_bps {
            None => store_config.default_referral_bps,
            Some(v) => if v == 0 {
                store_config.default_referral_bps
            } else {
                v
            },
        };
        if effective > store_config.max_referral_bps {
            Err(StoreError::ReferralAboveMax)
        } else if store_config.platform_fee_bps + effective > 10_000 {
            Err(StoreError::InvalidReferralBps)
        } else {
            Ok(effective)
        }
    }
}

/// The referral share that applies to a purchase.
pub fn compute_effective_referral_bps(
    store_config: &StoreConfig,
    cfg: &GameStoreConfig,
    has_referrer: bool,
) -> (r: Result<u16, ProgramError>)
    ensures
        match referral_bps_of(*store_config, cfg.referral_bps@, has_referrer) {
            Ok(v) => r == Ok::<u16, ProgramError>(v),
            Err(e) => r == Err::<u16, ProgramError>(ProgramError::Store(e)),
        },
{
    if !has_referrer {
        return Ok(0);
    }
    let effective = match cfg.referral_bps.get() {
        None => store_config.default_referral_bps,
        Some(v) => if v == 0 {
            store_config.default_referral_bps
        } else {
            v
        },
    };
    if effective > store_config.max_referral_bps {
        return Err(ProgramError::Store(StoreError::ReferralAboveMax));
    }
    if (store_config.platform_fee_bps as u32 + effective as u32) > 10_000 {
        return Err(ProgramError::Store(StoreError::InvalidReferralBps));
    }
    Ok(effective)
}

/// How a price splits: the platform fee, the referral share, and what is
/// left for the publisher; `MathOverflow` where the shares pass the price.
pub open spec fn split_of(price: u64, platform_fee_bps: u16, referral_bps: u16, has_referrer: bool) -> Result<
    (u64, u64, u64),
    StoreError,
> {
    let fee = bps_of(price as int, platform_fee_bps as int);
    let referral = if has_referrer {
        bps_of(price as int, referral_bps as int)
    } else {
        0
    };
    if fee > u64::MAX || referral > u64::MAX || fee + referral > price {
        Err(StoreError::MathOverflow)
    } else {
        Ok((fee as u64, referral as u64, (price - fee - referral) as u64))
    }
}

/// Splits a price into the platform fee, the referral share and the
/// publisher's part.
pub fn split_payment(price: u64, platform_fee_bps: u16, referral_bps: u16, has_referrer: bool) -> (r:
    Result<(u64, u64, u64), ProgramError>)
    ensures
        match split_of(price, platform_fee_bps, referral_bps, has_referrer) {
            Ok(s) => r == Ok::<(u64, u64, u64), ProgramError>(s),
            Err(e) => r == Err::<(u64, u64, u64), ProgramError>(ProgramError::Store(e)),
        },
        r matches Ok((fee, referral, publisher)) ==> fee + referral + publisher == price,
{
    let fee = bps_amount(price, platform_fee_bps)?;
    let referral = if has_referrer {
        bps_amount(price, referral_bps)?
    } else {
        0
    };
    if fee > price {
        return Err(ProgramError::Store(StoreError::MathOverflow));
    }
    let rest = price - fee;
    if referral > rest {
        return Err(ProgramError::Store(StoreError::MathOverflow));
    }
    Ok((fee, referral, rest - referral))
}

} // verus!

verus! {

/// Seed of accepted-payment-token addresses: "accepted_payment_token".
pub open spec fn accepted_payment_token_seed() -> Seq<u8> {
    seq![
        97u8, 99, 99, 101, 112, 116, 101, 100, 95, 112, 97, 121, 109, 101, 110, 116, 95, 116, 111,
        107, 101, 110,
    ]
}

/// Seed of game-payment-option addresses: "game_payment_option".
pub open spec fn game_payment_option_seed() -> Seq<u8> {
    seq![103u8, 97, 109, 101, 95, 112, 97, 121, 109, 101, 110, 116, 95, 111, 112, 116, 105, 111, 110]
}

fn accepted_payment_token_seed_vec() -> (v: Vec<u8>)
    ensures
        v@ == accepted_payment_token_seed(),
{
    let v = vec![
        97u8, 99, 99, 101, 112, 116, 101, 100, 95, 112, 97, 121, 109, 101, 110, 116, 95, 116, 111,
        107, 101, 110,
    ];
    assert(v@ =~= accepted_payment_token_seed());
    v
}

fn game_payment_option_seed_vec() -> (v: Vec<u8>)
    ensures
        v@ == game_payment_option_seed(),
{
    let v = vec![103u8, 97, 109, 101, 95, 112, 97, 121, 109, 101, 110, 116, 95, 111, 112, 116, 105, 111, 110];
    assert(v@ =~= game_payment_option_seed());
    v
}

/// Seeds as the address search takes them.
pub(crate) fn seeds2(a: Vec<u8>, b: Vec<u8>) -> (v: Vec<Vec<u8>>)
    ensures
        v.deep_view() == seq![a@, b@],
{
    proof {
        assert(a.deep_view() =~= a@);
        assert(b.deep_view() =~= b@);
    }
    let v = vec![a, b];
    assert(v.deep_view() =~= seq![a@, b@]);
    v
}

pub(crate) fn seeds3(a: Vec<u8>, b: Vec<u8>, c: Vec<u8>) -> (v: Vec<Vec<u8>>)
    ensures
        v.deep_view() == seq![a@, b@, c@],
{
    proof {
        assert(a.deep_view() =~= a@);
        assert(b.deep_view() =~= b@);
        assert(c.deep_view() =~= c@);
    }
    let v = vec![a, b, c];
    assert(v.deep_view() =~= seq![a@, b@, c@]);
    v
}

/// A token account's data: mint in bytes 0..32, owner in bytes 32..64,
/// and at least the 165 bytes of the token program's layout.
pub open spec fn token_account_error(
    view: AccountView,
    owner: Seq<u8>,
    mint: Seq<u8>,
    owner_error: StoreError,
    mint_error: StoreError,
) -> Option<StoreError> {
    if view.data@.len() < 165 {
        Some(owner_error)
    } else if view.data@.subrange(32, 64) != owner {
        Some(owner_error)
    } else if view.data@.subrange(0, 32) != mint {
        Some(mint_error)
    } else {
        None
    }
}

/// Compares 32 bytes of `data` at `start` with an address.
fn bytes_eq_at(data: &Vec<u8>, start: usize, a: &Address) -> (r: bool)
    requires
        start + 32 <= data@.len(),
    ensures
        r == (data@.subrange(start as int, start + 32) == a@),
{
    let mut i: usize = 0;
    while i < 32
        invariant
            i <= 32,
            start + 32 <= data.len(),
            a@.len() == 32,
            forall|j: int| 0 <= j < i ==> data@[start + j] == a@[j],
        decreases 32 - i,
    {
        if data[start + i] != a.bytes[i] {
            assert(data@.subrange(start as int, start + 32)[i as int] != a@[i as int]);
            return false;
        }
        i = i + 1;
    }
    assert(data@.subrange(start as int, start + 32) =~= a@);
    true
}

/// Checks a token account's length, owner and mint.
fn check_token_account(
    view: &AccountView,
    owner: &Address,
    mint: &Address,
    owner_error: StoreError,
    mint_error: StoreError,
) -> (r: Result<(), ProgramError>)
    ensures
        match token_account_error(*view, owner@, mint@, owner_error, mint_error) {
            Some(e) => r == Err::<(), ProgramError>(ProgramError::Store(e)),
            None => r is Ok,
        },
{
    if view.data.len() < 165 {
        return Err(ProgramError::Store(owner_error));
    }
    if !bytes_eq_at(&view.data, 32, owner) {
        return Err(ProgramError::Store(owner_error));
    }
    if !bytes_eq_at(&view.data, 0, mint) {
        return Err(ProgramError::Store(mint_error));
    }
    Ok(())
}

/// The accounts of `buy_game`.
pub struct BuyGame {
    pub buyer: Address,
    pub store_config: StoreConfig,
    pub authorized_source_program: AuthorizedProgram,
    pub authorized_registry_program: AuthorizedProgram,
    pub game: PglGame,
    pub registry_game: RegistryGame,
    pub game_store_config: GameStoreConfig,
    pub payment_mint: Option<Address>,
    pub accepted_payment_token: Option<AccountView>,
    pub game_payment_option: Option<AccountView>,
    pub buyer_payment_account: Option<AccountView>,
    pub publisher_payment_account: Option<AccountView>,
    pub treasury_payment_account: Option<AccountView>,
    pub referrer_payment_account: Option<AccountView>,
    pub store_actor: Address,
    pub authorized_actor: PglAuthorizedActor,
    pub pgl1_program: Address,
    pub license: Address,
    pub license_data_empty: bool,
    pub system_program: Address,
    pub purchase_receipt_bump: u8,
    pub program_id: Address,
}

/// Addresses that a purchase is checked against, derived from their seeds:
/// the accepted payment token and the game payment option of the payment
/// mint, and the buyer's license. `None` where no address was found.
#[derive(Clone, Copy, Debug)]
pub struct PurchaseAddresses {
    pub accepted_payment_token: Option<Address>,
    pub game_payment_option: Option<Address>,
    pub license: Option<Address>,
}

impl View for PurchaseAddresses {
    type V = (Option<Seq<u8>>, Option<Seq<u8>>, Option<Seq<u8>>);

    open spec fn view(&self) -> Self::V {
        (
            address_bytes(self.accepted_payment_token),
            address_bytes(self.game_payment_option),
            address_bytes(self.license),
        )
    }
}

/// The first account check of `buy_game` that fails: the account
/// constraints, then the registry's record and the store's settings.
pub open spec fn buy_account_error(a: BuyGame) -> Option<ProgramError> {
    let actor_data = a.authorized_actor.account().data@;
    let game = a.game.account().address@;
    if !a.authorized_source_program.active {
        Some(ProgramError::Store(StoreError::SourceProgramNotAuthorized))
    } else if !a.authorized_registry_program.active {
        Some(ProgramError::Store(StoreError::RegistryProgramNotAuthorized))
    } else if a.game_store_config.game@ != game {
        Some(ProgramError::HasOneMismatch)
    } else if a.store_actor@ != a.store_config.store_actor@ {
        Some(ProgramError::Store(StoreError::InvalidStoreActor))
    } else if actor_data.subrange(8, 40) != a.store_actor@ {
        Some(ProgramError::Store(StoreError::Unauthorized))
    } else if actor_data[40] == 0 {
        Some(ProgramError::Store(StoreError::Unauthorized))
    } else if registry_game_game(a.registry_game.account().data@) != game {
        Some(ProgramError::Store(StoreError::RegistryGameMismatch))
    } else if registry_game_status(a.registry_game.account().data@) != RegistryGameStatus::Active {
        Some(ProgramError::Store(StoreError::GameNotActive))
    } else if !a.game_store_config.active {
        Some(ProgramError::Store(StoreError::StoreGameInactive))
    } else {
        None
    }
}

fn check_buy_accounts(a: &BuyGame) -> (r: Result<(), ProgramError>)
    ensures
        match buy_account_error(*a) {
            Some(e) => r == Err::<(), ProgramError>(e),
            None => r is Ok,
        },
{
    if !a.authorized_source_program.active {
        return Err(ProgramError::Store(StoreError::SourceProgramNotAuthorized));
    }
    if !a.authorized_registry_program.active {
        return Err(ProgramError::Store(StoreError::RegistryProgramNotAuthorized));
    }
    let game = a.game.address();
    if !keys_eq(&a.game_store_config.game, &game) {
        return Err(ProgramError::HasOneMismatch);
    }
    if !keys_eq(&a.store_actor, &a.store_config.store_actor) {
        return Err(ProgramError::Store(StoreError::InvalidStoreActor));
    }
    let actor = a.authorized_actor.actor()?;
    if !keys_eq(&actor, &a.store_actor) {
        return Err(ProgramError::Store(StoreError::Unauthorized));
    }
    if !a.authorized_actor.active()? {
        return Err(ProgramError::Store(StoreError::Unauthorized));
    }
    let registered = a.registry_game.game()?;
    if !keys_eq(&registered, &game) {
        return Err(ProgramError::Store(StoreError::RegistryGameMismatch));
    }
    match a.registry_game.status()? {
        RegistryGameStatus::Active => {},
        _ => return Err(ProgramError::Store(StoreError::GameNotActive)),
    }
    if !a.game_store_config.active {
        return Err(ProgramError::Store(StoreError::StoreGameInactive));
    }
    Ok(())
}

/// What the paid path settles: the price, the mint, the referral share and
/// the split, and the token accounts that the transfers use.
#[derive(Clone, Copy, Debug)]
pub struct PaidTerms {
    pub final_price: u64,
    pub mint: Address,
    pub referral_bps: u16,
    pub platform_fee: u64,
    pub referral_amount: u64,
    pub publisher_amount: u64,
    pub buyer_account: Address,
    pub publisher_account: Address,
    pub treasury_account: Address,
    pub referrer_account: Option<Address>,
}

/// The payment option of the chosen mint: the mint and the base price, or
/// why the buyer may not pay with it.
pub open spec fn payment_option_of(
    a: BuyGame,
    chosen: Seq<u8>,
    apt_address: Option<Seq<u8>>,
    gpo_address: Option<Seq<u8>>,
) -> Result<(Address, u64), ProgramError> {
    let game = a.game.account().address@;
    match a.payment_mint {
        None => Err(ProgramError::Store(StoreError::PaymentTokenNotAllowed)),
        Some(mint) => if mint@ != chosen {
            Err(ProgramError::Store(StoreError::PaymentTokenNotAllowed))
        } else {
            match a.accepted_payment_token {
                None => Err(ProgramError::Store(StoreError::PaymentTokenNotAllowed)),
                Some(apt) => match decode_accepted_payment_token(apt.data@) {
                    Err(e) => Err(e),
                    Ok((apt_mint, apt_active, _)) => match a.game_payment_option {
                        None => Err(ProgramError::Store(StoreError::PriceNotFound)),
                        Some(gpo) => match decode_game_payment_option(gpo.data@) {
                            Err(e) => Err(e),
                            Ok((gpo_game, gpo_mint, base_price, gpo_active, _)) => match apt_address {
                                None => Err(ProgramError::NoViableBump),
                                Some(expected_apt) => if apt.address@ != expected_apt {
                                    Err(ProgramError::Store(StoreError::PaymentTokenNotAllowed))
                                } else if !apt_active {
                                    Err(ProgramError::Store(StoreError::PaymentTokenDisabled))
                                } else if apt_mint != mint@ {
                                    Err(ProgramError::Store(StoreError::PaymentTokenNotAllowed))
                                } else {
                                    match gpo_address {
                                        None => Err(ProgramError::NoViableBump),
                                        Some(expected_gpo) => if gpo.address@ != expected_gpo {
                                            Err(ProgramError::Store(StoreError::PriceNotFound))
                                        } else if !gpo_active {
                                            Err(ProgramError::Store(StoreError::PriceNotFound))
                                        } else if gpo_game != game {
                                            Err(
                                                ProgramError::Store(
                                                    StoreError::GamePaymentOptionMismatch,
                                                ),
                                            )
                                        } else if gpo_mint != mint@ {
                                            Err(ProgramError::Store(StoreError::PaymentTokenNotAllowed))
                                        } else {
                                            Ok((mint, base_price))
                                        },
                                    }
                                },
                            },
                        },
                    },
                },
            }
        },
    }
}

fn load_payment_option(a: &BuyGame, chosen: &Address, addresses: &PurchaseAddresses) -> (r: Result<
    (Address, u64),
    ProgramError,
>)
    ensures
        r == payment_option_of(*a, chosen@, addresses@.0, addresses@.1),
{
    let mint = match a.payment_mint {
        None => return Err(ProgramError::Store(StoreError::PaymentTokenNotAllowed)),
        Some(m) => m,
    };
    if !keys_eq(&mint, chosen) {
        return Err(ProgramError::Store(StoreError::PaymentTokenNotAllowed));
    }
    let apt_view = match &a.accepted_payment_token {
        None => return Err(ProgramError::Store(StoreError::PaymentTokenNotAllowed)),
        Some(v) => v,
    };
    let apt = AcceptedPaymentToken::try_deserialize(apt_view.data.as_slice())?;
    let gpo_view = match &a.game_payment_option {
        None => return Err(ProgramError::Store(StoreError::PriceNotFound)),
        Some(v) => v,
    };
    let gpo = GamePaymentOption::try_deserialize(gpo_view.data.as_slice())?;
    let expected_apt = match addresses.accepted_payment_token {
        None => return Err(ProgramError::NoViableBump),
        Some(k) => k,
    };
    if !keys_eq(&apt_view.address, &expected_apt) {
        return Err(ProgramError::Store(StoreError::PaymentTokenNotAllowed));
    }
    if !apt.active {
        return Err(ProgramError::Store(StoreError::PaymentTokenDisabled));
    }
    if !keys_eq(&apt.mint, &mint) {
        return Err(ProgramError::Store(StoreError::PaymentTokenNotAllowed));
    }
    let game = a.game.address();
    let expected_gpo = match addresses.game_payment_option {
        None => return Err(ProgramError::NoViableBump),
        Some(k) => k,
    };
    if !keys_eq(&gpo_view.address, &expected_gpo) {
        return Err(ProgramError::Store(StoreError::PriceNotFound));
    }
    if !gpo.active {
        return Err(ProgramError::Store(StoreError::PriceNotFound));
    }
    if !keys_eq(&gpo.game, &game) {
        return Err(ProgramError::Store(StoreError::GamePaymentOptionMismatch));
    }
    if !keys_eq(&gpo.mint, &mint) {
        return Err(ProgramError::Store(StoreError::PaymentTokenNotAllowed));
    }
    Ok((mint, gpo.base_price))
}

} // verus!

verus! {

/// The terms of a paid purchase in the chosen mint, or why it fails: the
/// payment option, the price, the buyer's, publisher's and treasury's token
/// accounts, the referral share, the split, and the referrer's token account
/// where a referral is paid.
pub open spec fn paid_terms_of(
    a: BuyGame,
    chosen: Seq<u8>,
    referrer: Option<Address>,
    now: i64,
    apt_address: Option<Seq<u8>>,
    gpo_address: Option<Seq<u8>>,
) -> Result<PaidTerms, ProgramError> {
    match payment_option_of(a, chosen, apt_address, gpo_address) {
        Err(e) => Err(e),
        Ok((mint, base_price)) => match final_price_of(
            base_price,
            a.game_store_config.discount_bps@,
            a.game_store_config.discount_starts_at@,
            a.game_store_config.discount_expires_at@,
            now,
        ) {
            Err(e) => Err(ProgramError::Store(e)),
            Ok(price) => match (
                a.buyer_payment_account,
                a.publisher_payment_account,
                a.treasury_payment_account,
            ) {
                (None, _, _) => Err(ProgramError::Store(StoreError::Unauthorized)),
                (Some(_), None, _) => Err(ProgramError::Store(StoreError::Unauthorized)),
                (Some(_), Some(_), None) => Err(ProgramError::Store(StoreError::InvalidTreasury)),
                (Some(buyer_account), Some(publisher_account), Some(treasury_account)) => {
                    let publisher = pgl_game_publisher(a.game.account().data@);
                    match token_account_error(
                        buyer_account,
                        a.buyer@,
                        mint@,
                        StoreError::Unauthorized,
                        StoreError::PaymentTokenNotAllowed,
                    ) {
                        Some(e) => Err(ProgramError::Store(e)),
                        None => match token_account_error(
                            publisher_account,
                            publisher,
                            mint@,
                            StoreError::Unauthorized,
                            StoreError::PaymentTokenNotAllowed,
                        ) {
                            Some(e) => Err(ProgramError::Store(e)),
                            None => match token_account_error(
                                treasury_account,
                                a.store_config.treasury@,
                                mint@,
                                StoreError::InvalidTreasury,
                                StoreError::PaymentTokenNotAllowed,
                            ) {
                                Some(e) => Err(ProgramError::Store(e)),
                                None => match referral_bps_of(
                                    a.store_config,
                                    a.game_store_config.referral_bps@,
                                    referrer is Some,
                                ) {
                                    Err(e) => Err(ProgramError::Store(e)),
                                    Ok(referral_bps) => match split_of(
                                        price,
                                        a.store_config.platform_fee_bps,
                                        referral_bps,
                                        referrer is Some,
                                    ) {
                                        Err(e) => Err(ProgramError::Store(e)),
                                        Ok((fee, referral_amount, publisher_amount)) => {
                                            let terms = PaidTerms {
                                                final_price: price,
                                                mint,
                                                referral_bps,
                                                platform_fee: fee,
                                                referral_amount,
                                                publisher_amount,
                                                buyer_account: buyer_account.address,
                                                publisher_account: publisher_account.address,
                                                treasury_account: treasury_account.address,
                                                referrer_account: None,
                                            };
                                            if referral_amount == 0 {
                                                Ok(terms)
                                            } else {
                                                match a.referrer_payment_account {
                                                    None => Err(
                                                        ProgramError::Store(
                                                            StoreError::MissingReferrerTokenAccount,
                                                        ),
                                                    ),
                                                    Some(referrer_account) => match token_account_error(
                                                        referrer_account,
                                                        referrer->0@,
                                                        mint@,
                                                        StoreError::InvalidReferrerTokenAccount,
                                                        StoreError::InvalidReferrerTokenAccount,
                                                    ) {
                                                        Some(e) => Err(ProgramError::Store(e)),
                                                        None => Ok(
                                                            PaidTerms {
                                                                referrer_account: Some(
                                                                    referrer_account.address,
                                                                ),
                                                                ..terms
                                                            },
                                                        ),
                                                    },
                                                }
                                            }
                                        },
                                    },
                                },
                            },
                        },
                    }
                },
            },
        },
    }
}

fn paid_terms(
    a: &BuyGame,
    chosen: &Address,
    referrer: Option<Address>,
    now: i64,
    addresses: &PurchaseAddresses,
) -> (r: Result<PaidTerms, ProgramError>)
    ensures
        r == paid_terms_of(*a, chosen@, referrer, now, addresses@.0, addresses@.1),
{
    let (mint, base_price) = load_payment_option(a, chosen, addresses)?;
    let price = compute_final_price(base_price, &a.game_store_config, now)?;
    let buyer_account = match &a.buyer_payment_account {
        None => return Err(ProgramError::Store(StoreError::Unauthorized)),
        Some(v) => v,
    };
    let publisher_account = match &a.publisher_payment_account {
        None => return Err(ProgramError::Store(StoreError::Unauthorized)),
        Some(v) => v,
    };
    let treasury_account = match &a.treasury_payment_account {
        None => return Err(ProgramError::Store(StoreError::InvalidTreasury)),
        Some(v) => v,
    };
    check_token_account(
        buyer_account,
        &a.buyer,
        &mint,
        StoreError::Unauthorized,
        StoreError::PaymentTokenNotAllowed,
    )?;
    let publisher = a.game.publisher()?;
    check_token_account(
        publisher_account,
        &publisher,
        &mint,
        StoreError::Unauthorized,
        StoreError::PaymentTokenNotAllowed,
    )?;
    check_token_account(
        treasury_account,
        &a.store_config.treasury,
        &mint,
        StoreError::InvalidTreasury,
        StoreError::PaymentTokenNotAllowed,
    )?;
    let has_referrer = referrer.is_some();
    let referral_bps = compute_effective_referral_bps(&a.store_config, &a.game_store_config, has_referrer)?;
    let (fee, referral_amount, publisher_amount) = split_payment(
        price,
        a.store_config.platform_fee_bps,
        referral_bps,
        has_referrer,
    )?;
    let terms = PaidTerms {
        final_price: price,
        mint,
        referral_bps,
        platform_fee: fee,
        referral_amount,
        publisher_amount,
        buyer_account: buyer_account.address,
        publisher_account: publisher_account.address,
        treasury_account: treasury_account.address,
        referrer_account: None,
    };
    if referral_amount == 0 {
        return Ok(terms);
    }
    let referrer_key = match referrer {
        None => return Err(ProgramError::Store(StoreError::MissingReferrerTokenAccount)),
        Some(k) => k,
    };
    let referrer_account = match &a.referrer_payment_account {
        None => return Err(ProgramError::Store(StoreError::MissingReferrerTokenAccount)),
        Some(v) => v,
    };
    check_token_account(
        referrer_account,
        &referrer_key,
        &mint,
        StoreError::InvalidReferrerTokenAccount,
        StoreError::InvalidReferrerTokenAccount,
    )?;
    Ok(PaidTerms { referrer_account: Some(referrer_account.address), ..terms })
}

} // verus!

verus! {

/// What a purchase answers for the outcome of one of its token transfers:
/// a failed transfer fails the purchase with `PaymentFailed`.
pub fn transfer_outcome(succeeded: bool) -> (r: Result<(), ProgramError>)
    ensures
        succeeded ==> r == Ok::<(), ProgramError>(()),
        !succeeded ==> r == Err::<(), ProgramError>(ProgramError::Store(StoreError::PaymentFailed)),
{
    if succeeded {
        Ok(())
    } else {
        Err(ProgramError::Store(StoreError::PaymentFailed))
    }
}

/// What a purchase answers for the outcome of its license mint: a failed
/// mint fails the purchase with `LicenseMintFailed`.
pub fn license_mint_outcome(succeeded: bool) -> (r: Result<(), ProgramError>)
    ensures
        succeeded ==> r == Ok::<(), ProgramError>(()),
        !succeeded ==> r == Err::<(), ProgramError>(ProgramError::Store(StoreError::LicenseMintFailed)),
{
    if succeeded {
        Ok(())
    } else {
        Err(ProgramError::Store(StoreError::LicenseMintFailed))
    }
}

/// A token transfer that the buyer signs.
#[derive(Clone, Copy, Debug)]
pub struct TokenTransfer {
    pub from: Address,
    pub to: Address,
    pub amount: u64,
}

/// The transfers of a paid purchase, in order: the platform fee to the
/// treasury, the publisher's part, the referral share; a zero amount is
/// not transferred.
pub open spec fn transfers_of(t: PaidTerms) -> Seq<TokenTransfer> {
    let fee = if t.platform_fee > 0 {
        seq![TokenTransfer { from: t.buyer_account, to: t.treasury_account, amount: t.platform_fee }]
    } else {
        Seq::empty()
    };
    let publisher = if t.publisher_amount > 0 {
        seq![
            TokenTransfer {
                from: t.buyer_account,
                to: t.publisher_account,
                amount: t.publisher_amount,
            },
        ]
    } else {
        Seq::empty()
    };
    let referral = if t.referral_amount > 0 {
        seq![
            TokenTransfer {
                from: t.buyer_account,
                to: t.referrer_account->0,
                amount: t.referral_amount,
            },
        ]
    } else {
        Seq::empty()
    };
    fee + publisher + referral
}

/// The sum of the amounts of a list of transfers.
pub open spec fn total_amount(s: Seq<TokenTransfer>) -> int
    decreases s.len(),
{
    if s.len() == 0 {
        0
    } else {
        total_amount(s.drop_last()) + s.last().amount
    }
}

/// What a purchase does: the transfers to make, the license to mint, and
/// the receipt and events to write.
#[derive(Debug)]
pub struct Purchase {
    pub transfers: Vec<TokenTransfer>,
    pub license_mint: CpiCall,
    pub receipt: PurchaseReceipt,
    pub purchased: GamePurchased,
    pub receipt_created: PurchaseReceiptCreated,
}

/// Seed of license addresses, as bytes ("license").
pub open spec fn license_seed_bytes() -> Seq<u8> {
    seq![108u8, 105, 99, 101, 110, 115, 101]
}

/// The addresses that a purchase is checked against: the accepted payment
/// token and the game payment option of the payment mint (none without a
/// mint), and the buyer's license for the game.
pub open spec fn purchase_addresses_of(a: BuyGame) -> (Option<Seq<u8>>, Option<Seq<u8>>, Option<Seq<u8>>) {
    let game = a.game.account().address@;
    (
        match a.payment_mint {
            None => None,
            Some(m) => derived_address(seq![accepted_payment_token_seed(), m@], a.program_id@),
        },
        match a.payment_mint {
            None => None,
            Some(m) => derived_address(seq![game_payment_option_seed(), game, m@], a.program_id@),
        },
        derived_address(seq![license_seed_bytes(), a.buyer@, game], a.pgl1_program@),
    )
}

/// Derives the addresses of `purchase_addresses_of`.
pub fn derive_purchase_addresses(a: &BuyGame) -> (d: PurchaseAddresses)
    ensures
        d@ == purchase_addresses_of(*a),
{
    let game = a.game.address();
    let (accepted_payment_token, game_payment_option) = match a.payment_mint {
        None => (None, None),
        Some(mint) => {
            let apt_seeds = seeds2(accepted_payment_token_seed_vec(), mint.to_vec());
            let apt = match find_program_address(&apt_seeds, &a.program_id) {
                None => None,
                Some((k, _)) => Some(k),
            };
            let gpo_seeds = seeds3(game_payment_option_seed_vec(), game.to_vec(), mint.to_vec());
            let gpo = match find_program_address(&gpo_seeds, &a.program_id) {
                None => None,
                Some((k, _)) => Some(k),
            };
            (apt, gpo)
        },
    };
    let license_seeds = seeds3(license_seed(), a.buyer.to_vec(), game.to_vec());
    let license = match find_program_address(&license_seeds, &a.pgl1_program) {
        None => None,
        Some((k, _)) => Some(k),
    };
    PurchaseAddresses { accepted_payment_token, game_payment_option, license }
}

/// What `buy_game` decides, given the derived addresses: the terms of a
/// paid purchase (none for a free one), or why the purchase fails. The
/// license must be the buyer's license address for the game and not exist
/// yet.
pub open spec fn buy_outcome(
    a: BuyGame,
    mint_token: Option<Address>,
    referrer: Option<Address>,
    now: i64,
    addresses: (Option<Seq<u8>>, Option<Seq<u8>>, Option<Seq<u8>>),
) -> Result<Option<PaidTerms>, ProgramError> {
    match buy_account_error(a) {
        Some(e) => Err(e),
        None => {
            let terms = match mint_token {
                None => Ok(None),
                Some(m) => match paid_terms_of(a, m@, referrer, now, addresses.0, addresses.1) {
                    Err(e) => Err(e),
                    Ok(t) => Ok(Some(t)),
                },
            };
            match terms {
                Err(e) => Err(e),
                Ok(t) => match addresses.2 {
                    None => Err(ProgramError::NoViableBump),
                    Some(license) => if a.license@ != license {
                        Err(ProgramError::Store(StoreError::LicenseMintFailed))
                    } else if !a.license_data_empty {
                        Err(ProgramError::Store(StoreError::AlreadyOwned))
                    } else {
                        Ok(t)
                    },
                },
            }
        },
    }
}

/// Whether a purchase carries out the terms: its transfers, its receipt,
/// its events and its license call.
pub open spec fn purchase_matches(
    p: Purchase,
    a: BuyGame,
    terms: Option<PaidTerms>,
    referrer: Option<Address>,
    now: i64,
) -> bool {
    let game = a.game.account().address;
    &&& p.transfers@ == (match terms {
        None => Seq::empty(),
        Some(t) => transfers_of(t),
    })
    &&& p.receipt.buyer == a.buyer
    &&& p.receipt.game == game
    &&& (match terms {
        None => p.receipt.payment_mint@ == zero_bytes() && p.receipt.final_price == 0
            && p.receipt.referral_bps_applied == 0,
        Some(t) => p.receipt.payment_mint == t.mint && p.receipt.final_price == t.final_price
            && p.receipt.referral_bps_applied == t.referral_bps,
    })
    &&& p.receipt.paid_amount == p.receipt.final_price
    &&& (match referrer {
        None => p.receipt.referrer@ == zero_bytes(),
        Some(k) => p.receipt.referrer == k,
    })
    &&& p.receipt.purchased_at == now
    &&& p.receipt.bump == a.purchase_receipt_bump
    &&& p.purchased == (GamePurchased {
        buyer: p.receipt.buyer,
        game: p.receipt.game,
        payment_mint: p.receipt.payment_mint,
        paid_amount: p.receipt.paid_amount,
        final_price: p.receipt.final_price,
        referrer: p.receipt.referrer,
        referral_bps_applied: p.receipt.referral_bps_applied,
    })
    &&& p.receipt_created == (PurchaseReceiptCreated {
        buyer: p.receipt.buyer,
        game: p.receipt.game,
        referrer: p.receipt.referrer,
    })
    &&& p.license_mint.program_id == a.pgl1_program
    &&& p.license_mint.data@ == crate::store::external::mint_license_disc().push(0u8)
    &&& p.license_mint.accounts@ == seq![
        crate::store::external::InstructionAccount {
            address: a.store_actor,
            is_signer: true,
            is_writable: false,
        },
        crate::store::external::InstructionAccount {
            address: a.buyer,
            is_signer: false,
            is_writable: false,
        },
        crate::store::external::InstructionAccount {
            address: a.authorized_actor.account().address,
            is_signer: false,
            is_writable: false,
        },
        crate::store::external::InstructionAccount {
            address: game,
            is_signer: false,
            is_writable: false,
        },
        crate::store::external::InstructionAccount {
            address: a.license,
            is_signer: false,
            is_writable: true,
        },
        crate::store::external::InstructionAccount {
            address: a.system_program,
            is_signer: false,
            is_writable: false,
        },
    ]
}

/// Sells the game to the buyer. With a mint, the buyer pays the game's
/// price in that mint, split between treasury, publisher and referrer;
/// without one, the game is free. Either way the buyer's license, which
/// must not exist yet, is minted by the store's actor and a receipt is
/// written. The transfers and the license call are returned for the runtime
/// to carry out, in order.
pub fn handler(accounts: &BuyGame, mint_token: Option<Address>, referrer: Option<Address>, now: i64) -> (r:
    Result<Purchase, ProgramError>)
    ensures
        match buy_outcome(*accounts, mint_token, referrer, now, purchase_addresses_of(*accounts)) {
            Err(e) => r matches Err(x) && x == e,
            Ok(terms) => r matches Ok(p) && purchase_matches(p, *accounts, terms, referrer, now),
        },
{
    let addresses = derive_purchase_addresses(accounts);
    purchase(accounts, mint_token, referrer, now, &addresses)
}

/// The purchase of `handler`, checked against addresses derived
/// beforehand.
pub fn purchase(
    accounts: &BuyGame,
    mint_token: Option<Address>,
    referrer: Option<Address>,
    now: i64,
    addresses: &PurchaseAddresses,
) -> (r: Result<Purchase, ProgramError>)
    ensures
        match buy_outcome(*accounts, mint_token, referrer, now, addresses@) {
            Err(e) => r matches Err(x) && x == e,
            Ok(terms) => r matches Ok(p) && purchase_matches(p, *accounts, terms, referrer, now),
        },
{
    check_buy_accounts(accounts)?;
    let terms = match &mint_token {
        None => None,
        Some(chosen) => Some(paid_terms(accounts, chosen, referrer, now, addresses)?),
    };
    let game = accounts.game.address();
    let expected_license = match addresses.license {
        None => return Err(ProgramError::NoViableBump),
        Some(k) => k,
    };
    if !keys_eq(&accounts.license, &expected_license) {
        return Err(ProgramError::Store(StoreError::LicenseMintFailed));
    }
    if !accounts.license_data_empty {
        return Err(ProgramError::Store(StoreError::AlreadyOwned));
    }
    let mut transfers: Vec<TokenTransfer> = Vec::new();
    let (final_price, payment_mint, referral_bps) = match &terms {
        None => (0u64, Address::zero(), 0u16),
        Some(t) => {
            if t.platform_fee > 0 {
                transfers.push(
                    TokenTransfer {
                        from: t.buyer_account,
                        to: t.treasury_account,
                        amount: t.platform_fee,
                    },
                );
            }
            if t.publisher_amount > 0 {
                transfers.push(
                    TokenTransfer {
                        from: t.buyer_account,
                        to: t.publisher_account,
                        amount: t.publisher_amount,
                    },
                );
            }
            if t.referral_amount > 0 {
                let to = match t.referrer_account {
                    Some(k) => k,
                    None => t.buyer_account,
                };
                transfers.push(
                    TokenTransfer { from: t.buyer_account, to, amount: t.referral_amount },
                );
            }
            proof {
                assert(transfers@ =~= transfers_of(*t));
            }
            (t.final_price, t.mint, t.referral_bps)
        },
    };
    let referrer_key = match referrer {
        Some(k) => k,
        None => Address::zero(),
    };
    let receipt = PurchaseReceipt {
        buyer: accounts.buyer,
        game,
        payment_mint,
        paid_amount: final_price,
        final_price,
        referrer: referrer_key,
        referral_bps_applied: referral_bps,
        purchased_at: now,
        bump: accounts.purchase_receipt_bump,
    };
    let license_mint = mint_license(
        accounts.pgl1_program,
        accounts.store_actor,
        accounts.buyer,
        accounts.authorized_actor.address(),
        game,
        accounts.license,
        accounts.system_program,
    );
    let purchased = GamePurchased {
        buyer: receipt.buyer,
        game: receipt.game,
        payment_mint: receipt.payment_mint,
        paid_amount: receipt.paid_amount,
        final_price: receipt.final_price,
        referrer: receipt.referrer,
        referral_bps_applied: receipt.referral_bps_applied,
    };
    let receipt_created = PurchaseReceiptCreated {
        buyer: receipt.buyer,
        game: receipt.game,
        referrer: receipt.referrer,
    };
    Ok(Purchase { transfers, license_mint, receipt, purchased, receipt_created })
}

} // verus!

verus! {

proof fn lemma_total_amount_append(s: Seq<TokenTransfer>, t: Seq<TokenTransfer>)
    ensures
        total_amount(s + t) == total_amount(s) + total_amount(t),
    decreases t.len(),
{
    if t.len() == 0 {
        assert(s + t =~= s);
    } else {
        lemma_total_amount_append(s, t.drop_last());
        assert((s + t).drop_last() =~= s + t.drop_last());
    }
}

proof fn lemma_total_amount_single(x: TokenTransfer)
    ensures
        total_amount(seq![x]) == x.amount,
{
    assert(seq![x].drop_last() =~= Seq::<TokenTransfer>::empty());
    assert(total_amount(Seq::<TokenTransfer>::empty()) == 0);
    assert(seq![x].last() == x);
}

/// The transfers of a paid purchase add up to what the shares add up to.
pub proof fn lemma_transfers_total(t: PaidTerms)
    ensures
        total_amount(transfers_of(t)) == t.platform_fee + t.publisher_amount + t.referral_amount,
{
    let fee = if t.platform_fee > 0 {
        seq![TokenTransfer { from: t.buyer_account, to: t.treasury_account, amount: t.platform_fee }]
    } else {
        Seq::empty()
    };
    let publisher = if t.publisher_amount > 0 {
        seq![
            TokenTransfer {
                from: t.buyer_account,
                to: t.publisher_account,
                amount: t.publisher_amount,
            },
        ]
    } else {
        Seq::empty()
    };
    let referral = if t.referral_amount > 0 {
        seq![
            TokenTransfer {
                from: t.buyer_account,
                to: t.referrer_account->0,
                amount: t.referral_amount,
            },
        ]
    } else {
        Seq::empty()
    };
    lemma_total_amount_append(fee + publisher, referral);
    lemma_total_amount_append(fee, publisher);
    if t.platform_fee > 0 {
        lemma_total_amount_single(fee[0]);
    }
    if t.publisher_amount > 0 {
        lemma_total_amount_single(publisher[0]);
    }
    if t.referral_amount > 0 {
        lemma_total_amount_single(referral[0]);
    }
}

/// A paid purchase that `buy_game` accepts moves exactly its final price
/// from the buyer: the platform fee (the fee share of the price) to the
/// treasury, the referral share to the referrer, and the rest to the
/// publisher. The final price is at most the base price, and the referral
/// share is within the store's maximum.
pub proof fn lemma_purchase_pays_final_price(
    a: BuyGame,
    mint_token: Option<Address>,
    referrer: Option<Address>,
    now: i64,
    addresses: (Option<Seq<u8>>, Option<Seq<u8>>, Option<Seq<u8>>),
)
    requires
        buy_outcome(a, mint_token, referrer, now, addresses) is Ok,
        buy_outcome(a, mint_token, referrer, now, addresses)->Ok_0 is Some,
    ensures
        ({
            let t = buy_outcome(a, mint_token, referrer, now, addresses)->Ok_0->0;
            &&& total_amount(transfers_of(t)) == t.final_price
            &&& t.platform_fee == bps_of(t.final_price as int, a.store_config.platform_fee_bps as int)
            &&& t.referral_amount == (if referrer is Some {
                bps_of(t.final_price as int, t.referral_bps as int)
            } else {
                0
            })
            &&& t.publisher_amount == t.final_price - t.platform_fee - t.referral_amount
            &&& t.final_price <= (payment_option_of(a, mint_token->0@, addresses.0, addresses.1)->Ok_0).1
            &&& t.referral_bps <= a.store_config.max_referral_bps
        }),
{
    let t = buy_outcome(a, mint_token, referrer, now, addresses)->Ok_0->0;
    lemma_transfers_total(t);
    let m = mint_token->0;
    assert(mint_token is Some);
    assert(paid_terms_of(a, m@, referrer, now, addresses.0, addresses.1) == Ok::<PaidTerms, ProgramError>(
        t,
    ));
    let base = (payment_option_of(a, m@, addresses.0, addresses.1)->Ok_0).1;
    let price = final_price_of(
        base,
        a.game_store_config.discount_bps@,
        a.game_store_config.discount_starts_at@,
        a.game_store_config.discount_expires_at@,
        now,
    )->Ok_0;
    assert(t.final_price == price);
    assert(price <= base) by {
        lemma_final_price_at_most_base(
            base,
            a.game_store_config.discount_bps@,
            a.game_store_config.discount_starts_at@,
            a.game_store_config.discount_expires_at@,
            now,
        );
    }
    let rb = referral_bps_of(a.store_config, a.game_store_config.referral_bps@, referrer is Some);
    assert(rb is Ok && t.referral_bps == rb->Ok_0);
    let sp = split_of(price, a.store_config.platform_fee_bps, t.referral_bps, referrer is Some);
    assert(sp is Ok);
    assert(t.platform_fee == (sp->Ok_0).0);
    assert(t.referral_amount == (sp->Ok_0).1);
    assert(t.publisher_amount == (sp->Ok_0).2);
}

/// A discount never raises a price.
pub proof fn lemma_final_price_at_most_base(
    base_price: u64,
    discount_bps: Option<u16>,
    starts_at: Option<i64>,
    expires_at: Option<i64>,
    now: i64,
)
    ensures
        final_price_of(base_price, discount_bps, starts_at, expires_at, now) matches Ok(p) ==> p
            <= base_price,
{
    if let Some(bps) = discount_bps {
        if bps <= 10_000 {
            assert(base_price * bps <= base_price * 10_000) by (nonlinear_arith)
                requires
                    bps <= 10_000,
            ;
            assert(bps_of(base_price as int, bps as int) <= base_price) by (nonlinear_arith)
                requires
                    base_price * bps <= base_price * 10_000,
            ;
            assert(bps_of(base_price as int, bps as int) >= 0) by (nonlinear_arith)
                requires
                    base_price >= 0,
                    bps >= 0,
            ;
        }
    }
}

/// A discount whose end has passed no longer applies: the buyer pays the
/// base price, whether or not the discount has a start.
pub proof fn lemma_expired_discount_pays_base(
    base_price: u64,
    discount_bps: Option<u16>,
    starts_at: Option<i64>,
    end: i64,
    now: i64,
)
    requires
        now > end,
        discount_bps matches Some(bps) ==> bps <= 10_000,
    ensures
        final_price_of(base_price, discount_bps, starts_at, Some(end), now) == Ok::<u64, StoreError>(
            base_price,
        ),
{
}

/// Before its start a discount does not apply either.
pub proof fn lemma_future_discount_pays_base(
    base_price: u64,
    discount_bps: Option<u16>,
    start: i64,
    expires_at: Option<i64>,
    now: i64,
)
    requires
        now < start,
        discount_bps matches Some(bps) ==> bps <= 10_000,
    ensures
        final_price_of(base_price, discount_bps, Some(start), expires_at, now) == Ok::<u64, StoreError>(
            base_price,
        ),
{
}

/// A game that the registry does not hold active, or that the store does
/// not have on sale, cannot be bought.
pub proof fn lemma_inactive_game_not_sold(a: BuyGame)
    requires
        registry_game_status(a.registry_game.account().data@) != RegistryGameStatus::Active
            || !a.game_store_config.active,
    ensures
        buy_account_error(a) is Some,
{
}

/// Within an open discount window the buyer pays the base price less the
/// discount share, rounded in the store's favour of the share.
pub proof fn lemma_open_discount_applies(
    base_price: u64,
    bps: u16,
    starts_at: Option<i64>,
    expires_at: Option<i64>,
    now: i64,
)
    requires
        bps <= 10_000,
        starts_at matches Some(s) ==> s <= now,
        expires_at matches Some(e) ==> now <= e,
    ensures
        final_price_of(base_price, Some(bps), starts_at, expires_at, now) == Ok::<u64, StoreError>(
            (base_price - base_price * bps / 10_000) as u64,
        ),
{
}

} // verus!
