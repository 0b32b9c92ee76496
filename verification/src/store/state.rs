//! Accounts of the game store and their limits.
use vstd::prelude::*;
use crate::address::Address;
use crate::store::errors::ProgramError;
use crate::le::{
    i64_to_le, le_bytes8, le_i64, le_u16, le_u64, twos_complement, u16_to_le, u64_as_i64, u16_from_le,
    u64_from_le,
};

verus! {

/// Role of a program that publishes games (the license program).
pub const ROLE_SOURCE: u8 = 0;
/// Role of a program that registers games (the registry).
pub const ROLE_REGISTRY: u8 = 1;

/// One basis point is a ten-thousandth.
pub const BPS_DENOMINATOR: u64 = 10_000;
/// The platform fee is at most 100%.
pub const PLATFORM_FEE_BPS_MAX: u16 = 10_000;
/// The maximum referral share is at most 50%.
pub const MAX_REFERRAL_BPS_HARD_CAP: u16 = 5_000;

/// An optional `u16` in three bytes: a tag (0 for none) and the value in
/// little-endian order.
#[derive(Clone, Copy, Debug)]
pub struct OptionU16 {
    tag: u8,
    value: [u8; 2],
}

impl View for OptionU16 {
    type V = Option<u16>;

    closed spec fn view(&self) -> Option<u16> {
        if self.tag == 0 {
            None
        } else {
            Some(le_u16(self.value@) as u16)
        }
    }
}

impl OptionU16 {
    /// The empty value: tag 0 and zero bytes.
    pub fn none() -> (r: Self)
        ensures
            r@ == None::<u16>,
            r == encode_option_u16(None),
    {
        let r = OptionU16 { tag: 0, value: [0u8, 0u8] };
        proof {
            lemma_option_u16_bytes(r, encode_option_u16(None));
        }
        r
    }

    /// The value held, if any.
    pub fn get(&self) -> (r: Option<u16>)
        ensures
            r == self@,
    {
        if self.tag == 0 {
            None
        } else {
            Some(u16_from_le(self.value[0], self.value[1]))
        }
    }

    /// Replaces the value held.
    pub fn set(&mut self, value: Option<u16>)
        ensures
            final(self)@ == value,
            *final(self) == encode_option_u16(value),
    {
        match value {
            None => {
                *self = OptionU16::none();
            },
            Some(v) => {
                self.tag = 1;
                self.value = u16_to_le(v);
                proof {
                    lemma_option_u16_bytes(*self, encode_option_u16(value));
                    lemma_option_u16_from(value);
                }
            },
        }
    }
}

impl From<Option<u16>> for OptionU16 {
    fn from(value: Option<u16>) -> (out: Self) {
        let mut out = OptionU16::none();
        out.set(value);
        out
    }
}

impl vstd::std_specs::convert::FromSpecImpl<Option<u16>> for OptionU16 {
    open spec fn obeys_from_spec() -> bool {
        true
    }

    open spec fn from_spec(v: Option<u16>) -> Self {
        encode_option_u16(v)
    }
}

/// The bytes that `OptionU16::from` writes: tag 0 and zero bytes for none,
/// else tag 1 and the little-endian value.
pub closed spec fn encode_option_u16(v: Option<u16>) -> OptionU16 {
    match v {
        None => OptionU16 { tag: 0, value: [0u8, 0u8] },
        Some(x) => OptionU16 { tag: 1, value: [(x % 256) as u8, (x / 256) as u8] },
    }
}

/// Two encodings with the same tag and bytes are the same value.
proof fn lemma_option_u16_bytes(a: OptionU16, b: OptionU16)
    requires
        a.tag == b.tag,
        a.value@ == b.value@,
    ensures
        a == b,
{
    assert(a.value@ =~= b.value@);
    assert(a.value == b.value);
}

/// What `OptionU16::from` builds holds the value it was given.
pub proof fn lemma_option_u16_from(v: Option<u16>)
    ensures
        encode_option_u16(v)@ == v,
{
    match v {
        None => {},
        Some(x) => {
            let o = encode_option_u16(v);
            assert(o.value@ =~= seq![(x % 256) as u8, (x / 256) as u8]);
        },
    }
}

/// An optional `i64` in nine bytes: a tag (0 for none) and the value in
/// little-endian two's complement.
#[derive(Clone, Copy, Debug)]
pub struct OptionI64 {
    tag: u8,
    value: [u8; 8],
}

impl View for OptionI64 {
    type V = Option<i64>;

    closed spec fn view(&self) -> Option<i64> {
        if self.tag == 0 {
            None
        } else {
            Some(le_i64(self.value@) as i64)
        }
    }
}

impl OptionI64 {
    /// The empty value: tag 0 and zero bytes.
    pub fn none() -> (r: Self)
        ensures
            r@ == None::<i64>,
            r == encode_option_i64(None),
    {
        let r = OptionI64 { tag: 0, value: [0u8, 0u8, 0u8, 0u8, 0u8, 0u8, 0u8, 0u8] };
        proof {
            lemma_option_i64_bytes(r, encode_option_i64(None));
        }
        r
    }

    /// The value held, if any.
    pub fn get(&self) -> (r: Option<i64>)
        ensures
            r == self@,
    {
        if self.tag == 0 {
            None
        } else {
            let bytes: &[u8] = &self.value;
            Some(u64_as_i64(u64_from_le(bytes, 0)))
        }
    }

    /// Replaces the value held.
    pub fn set(&mut self, value: Option<i64>)
        ensures
            final(self)@ == value,
            *final(self) == encode_option_i64(value),
    {
        match value {
            None => {
                *self = OptionI64::none();
            },
            Some(v) => {
                self.tag = 1;
                self.value = i64_to_le(v);
                proof {
                    lemma_option_i64_bytes(*self, encode_option_i64(value));
                }
            },
        }
    }
}

impl From<Option<i64>> for OptionI64 {
    fn from(value: Option<i64>) -> (out: Self) {
        let mut out = OptionI64::none();
        out.set(value);
        out
    }
}

impl vstd::std_specs::convert::FromSpecImpl<Option<i64>> for OptionI64 {
    open spec fn obeys_from_spec() -> bool {
        true
    }

    open spec fn from_spec(v: Option<i64>) -> Self {
        encode_option_i64(v)
    }
}

/// The bytes that `OptionI64::from` writes: tag 0 and zero bytes for none,
/// else tag 1 and the little-endian two's complement value.
pub closed spec fn encode_option_i64(v: Option<i64>) -> OptionI64 {
    match v {
        None => OptionI64 { tag: 0, value: [0u8, 0u8, 0u8, 0u8, 0u8, 0u8, 0u8, 0u8] },
        Some(x) => {
            let b = le_bytes8(twos_complement(x as int));
            OptionI64 { tag: 1, value: [b[0], b[1], b[2], b[3], b[4], b[5], b[6], b[7]] }
        },
    }
}

/// Two encodings with the same tag and bytes are the same value.
proof fn lemma_option_i64_bytes(a: OptionI64, b: OptionI64)
    requires
        a.tag == b.tag,
        a.value@ == b.value@,
    ensures
        a == b,
{
    assert(a.value@ =~= b.value@);
    assert(a.value == b.value);
}

/// What `OptionI64::from` builds holds the value it was given.
pub proof fn lemma_option_i64_from(v: Option<i64>)
    ensures
        encode_option_i64(v)@ == v,
{
    match v {
        None => {},
        Some(x) => {
            let u: u64 = if x >= 0 { x as u64 } else { (x + 0x1_0000_0000_0000_0000) as u64 };
            assert(twos_complement(x as int) == u);
            let b = le_bytes8(u as int);
            let o = encode_option_i64(v);
            assert(o.value@ =~= b);
            assert(le_u64(le_bytes8(u as int)) == u) by (bit_vector);
            assert(le_i64(b) == x);
        },
    }
}

/// The store's global configuration.
#[derive(Clone, Copy, Debug)]
pub struct StoreConfig {
    pub authority: Address,
    pub treasury: Address,
    pub platform_fee_bps: u16,
    pub default_referral_bps: u16,
    pub max_referral_bps: u16,
    pub store_actor: Address,
    pub bump: u8,
}

impl StoreConfig {
    /// The fee limits that every instruction keeps: the platform fee is at
    /// most 100%, the maximum referral at most 50%, the default referral at
    /// most the maximum, and fee and maximum referral together at most 100%.
    pub open spec fn fees_valid(self) -> bool {
        &&& self.platform_fee_bps <= PLATFORM_FEE_BPS_MAX
        &&& self.max_referral_bps <= MAX_REFERRAL_BPS_HARD_CAP
        &&& self.default_referral_bps <= self.max_referral_bps
        &&& self.platform_fee_bps + self.max_referral_bps <= PLATFORM_FEE_BPS_MAX
    }

    /// The fee limits, and a treasury and a store actor that are set.
    pub open spec fn valid(self) -> bool {
        &&& self.fees_valid()
        &&& self.treasury@ != crate::address::zero_bytes()
        &&& self.store_actor@ != crate::address::zero_bytes()
    }
}

/// A program that the store trusts, with its role.
#[derive(Clone, Copy, Debug)]
pub struct AuthorizedProgram {
    pub program_id: Address,
    pub active: bool,
    pub role: u8,
    pub bump: u8,
}

/// A mint that buyers may pay with.
#[derive(Clone, Copy, Debug)]
pub struct AcceptedPaymentToken {
    pub mint: Address,
    pub active: bool,
    pub bump: u8,
}

/// The store's sale settings of one game.
#[derive(Clone, Copy, Debug)]
pub struct GameStoreConfig {
    pub game: Address,
    pub active: bool,
    pub referral_bps: OptionU16,
    pub discount_bps: OptionU16,
    pub discount_starts_at: OptionI64,
    pub discount_expires_at: OptionI64,
    pub bump: u8,
}

/// The price of one game in one mint.
#[derive(Clone, Copy, Debug)]
pub struct GamePaymentOption {
    pub game: Address,
    pub mint: Address,
    pub base_price: u64,
    pub active: bool,
    pub bump: u8,
}

/// The record of one purchase.
#[derive(Clone, Copy, Debug)]
pub struct PurchaseReceipt {
    pub buyer: Address,
    pub game: Address,
    pub payment_mint: Address,
    pub paid_amount: u64,
    pub final_price: u64,
    pub referrer: Address,
    pub referral_bps_applied: u16,
    pub purchased_at: i64,
    pub bump: u8,
}

/// Discriminator of accepted-payment-token records.
pub open spec fn accepted_payment_token_disc() -> Seq<u8> {
    seq![101u8, 168, 82, 98, 20, 218, 130, 107]
}

/// Discriminator of game-payment-option records.
pub open spec fn game_payment_option_disc() -> Seq<u8> {
    seq![7u8, 115, 189, 102, 10, 48, 220, 137]
}

/// A serialized flag is the byte 0 or 1.
pub open spec fn flag_byte(b: u8) -> Option<bool> {
    if b == 0 {
        Some(false)
    } else if b == 1 {
        Some(true)
    } else {
        None
    }
}

/// What serialized record data decodes to: a discriminator, then the fields
/// in order; `Err` where the data is too short for the discriminator, has
/// another one, or does not hold the fields.
pub open spec fn decode_accepted_payment_token(data: Seq<u8>) -> Result<
    (Seq<u8>, bool, u8),
    ProgramError,
> {
    if data.len() < 8 {
        Err(ProgramError::AccountDiscriminatorNotFound)
    } else if data.subrange(0, 8) != accepted_payment_token_disc() {
        Err(ProgramError::AccountDiscriminatorMismatch)
    } else if data.len() < 42 || flag_byte(data[40]) is None {
        Err(ProgramError::AccountDidNotDeserialize)
    } else {
        Ok((data.subrange(8, 40), flag_byte(data[40])->0, data[41]))
    }
}

/// The fields of a serialized game payment option: game, mint, base price,
/// active flag and bump.
pub open spec fn decode_game_payment_option(data: Seq<u8>) -> Result<
    (Seq<u8>, Seq<u8>, u64, bool, u8),
    ProgramError,
> {
    if data.len() < 8 {
        Err(ProgramError::AccountDiscriminatorNotFound)
    } else if data.subrange(0, 8) != game_payment_option_disc() {
        Err(ProgramError::AccountDiscriminatorMismatch)
    } else if data.len() < 82 || flag_byte(data[80]) is None {
        Err(ProgramError::AccountDidNotDeserialize)
    } else {
        Ok((
            data.subrange(8, 40),
            data.subrange(40, 72),
            crate::le::le_u64(data.subrange(72, 80)) as u64,
            flag_byte(data[80])->0,
            data[81],
        ))
    }
}

/// Whether the eight bytes of `data` at 0 are `disc`.
fn has_discriminator(data: &[u8], disc: &[u8; 8]) -> (r: bool)
    requires
        data@.len() >= 8,
    ensures
        r == (data@.subrange(0, 8) == disc@),
{
    let mut i: usize = 0;
    while i < 8
        invariant
            i <= 8,
            data@.len() >= 8,
            disc@.len() == 8,
            forall|j: int| 0 <= j < i ==> data@[j] == disc@[j],
        decreases 8 - i,
    {
        if data[i] != disc[i] {
            assert(data@.subrange(0, 8)[i as int] != disc@[i as int]);
            return false;
        }
        i = i + 1;
    }
    assert(data@.subrange(0, 8) =~= disc@);
    true
}

/// The 32 bytes at `start`.
fn address_at(data: &[u8], start: usize) -> (a: Address)
    requires
        start + 32 <= data@.len(),
    ensures
        a@ == data@.subrange(start as int, start + 32),
{
    let mut bytes = [0u8; 32];
    let mut i: usize = 0;
    while i < 32
        invariant
            i <= 32,
            start + 32 <= data.len(),
            bytes@.len() == 32,
            forall|j: int| 0 <= j < i ==> bytes@[j] == data@[start + j],
        decreases 32 - i,
    {
        bytes[i] = data[start + i];
        i = i + 1;
    }
    assert(bytes@ =~= data@.subrange(start as int, start + 32));
    Address { bytes }
}

impl AcceptedPaymentToken {
    /// Decodes a record from account data.
    pub fn try_deserialize(data: &[u8]) -> (r: Result<AcceptedPaymentToken, ProgramError>)
        ensures
            match decode_accepted_payment_token(data@) {
                Err(e) => r == Err::<AcceptedPaymentToken, ProgramError>(e),
                Ok((mint, active, bump)) => r matches Ok(t) && t.mint@ == mint && t.active
                    == active && t.bump == bump,
            },
    {
        if data.len() < 8 {
            return Err(ProgramError::AccountDiscriminatorNotFound);
        }
        let disc: [u8; 8] = [101u8, 168, 82, 98, 20, 218, 130, 107];
        assert(disc@ =~= accepted_payment_token_disc());
        if !has_discriminator(data, &disc) {
            return Err(ProgramError::AccountDiscriminatorMismatch);
        }
        if data.len() < 42 || data[40] > 1 {
            return Err(ProgramError::AccountDidNotDeserialize);
        }
        Ok(AcceptedPaymentToken { mint: address_at(data, 8), active: data[40] == 1, bump: data[41] })
    }
}

impl GamePaymentOption {
    /// Decodes a record from account data.
    pub fn try_deserialize(data: &[u8]) -> (r: Result<GamePaymentOption, ProgramError>)
        ensures
            match decode_game_payment_option(data@) {
                Err(e) => r == Err::<GamePaymentOption, ProgramError>(e),
                Ok((game, mint, base_price, active, bump)) => r matches Ok(o) && o.game@ == game
                    && o.mint@ == mint && o.base_price == base_price && o.active == active
                    && o.bump == bump,
            },
    {
        if data.len() < 8 {
            return Err(ProgramError::AccountDiscriminatorNotFound);
        }
        let disc: [u8; 8] = [7u8, 115, 189, 102, 10, 48, 220, 137];
        assert(disc@ =~= game_payment_option_disc());
        if !has_discriminator(data, &disc) {
            return Err(ProgramError::AccountDiscriminatorMismatch);
        }
        if data.len() < 82 || data[80] > 1 {
            return Err(ProgramError::AccountDidNotDeserialize);
        }
        Ok(
            GamePaymentOption {
                game: address_at(data, 8),
                mint: address_at(data, 40),
                base_price: u64_from_le(data, 72),
                active: data[80] == 1,
                bump: data[81],
            },
        )
    }
}

} // verus!
