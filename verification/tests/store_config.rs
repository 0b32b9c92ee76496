use game_store::address::Address;
use game_store::store::errors::{ProgramError, StoreError};
use game_store::store::instructions::{
    initialize_store, set_default_referral, set_max_referral, set_platform_fee, set_store_actor,
    set_treasury,
};
use game_store::store::state::StoreConfig;

fn addr(n: u8) -> Address {
    Address::new_from_array([n; 32])
}

fn config() -> StoreConfig {
    initialize_store::handler(
        &initialize_store::InitializeStore { authority: addr(1), store_config_bump: 254 },
        addr(2),
        500,
        300,
        1_000,
        addr(3),
    )
    .unwrap()
    .0
}

#[test]
fn initialize_store_writes_config() {
    let (c, e) = initialize_store::handler(
        &initialize_store::InitializeStore { authority: addr(1), store_config_bump: 254 },
        addr(2),
        500,
        300,
        1_000,
        addr(3),
    )
    .unwrap();
    assert_eq!(c.authority.bytes, [1; 32]);
    assert_eq!(c.treasury.bytes, [2; 32]);
    assert_eq!(c.platform_fee_bps, 500);
    assert_eq!(c.default_referral_bps, 300);
    assert_eq!(c.max_referral_bps, 1_000);
    assert_eq!(c.store_actor.bytes, [3; 32]);
    assert_eq!(c.bump, 254);
    assert_eq!(e.authority.bytes, [1; 32]);
    assert_eq!(e.treasury.bytes, [2; 32]);
}

#[test]
fn initialize_store_errors_in_order() {
    let acc = initialize_store::InitializeStore { authority: addr(1), store_config_bump: 1 };
    let run = |t: Address, fee: u16, d: u16, m: u16, a: Address| {
        initialize_store::handler(&acc, t, fee, d, m, a).map(|_| ()).unwrap_err()
    };
    assert_eq!(run(Address::zero(), 20_000, 0, 0, Address::zero()), ProgramError::Store(StoreError::InvalidTreasury));
    assert_eq!(run(addr(2), 20_000, 0, 0, Address::zero()), ProgramError::Store(StoreError::InvalidStoreActor));
    assert_eq!(run(addr(2), 10_001, 0, 0, addr(3)), ProgramError::Store(StoreError::InvalidPlatformFeeBps));
    assert_eq!(run(addr(2), 0, 0, 5_001, addr(3)), ProgramError::Store(StoreError::InvalidMaxReferralBps));
    assert_eq!(run(addr(2), 0, 101, 100, addr(3)), ProgramError::Store(StoreError::InvalidDefaultReferralBps));
    assert_eq!(run(addr(2), 6_000, 0, 4_001, addr(3)), ProgramError::Store(StoreError::InvalidMaxReferralBps));
    // the limits themselves are accepted
    assert!(initialize_store::handler(&acc, addr(2), 5_000, 5_000, 5_000, addr(3)).is_ok());
    assert!(initialize_store::handler(&acc, addr(2), 10_000, 0, 0, addr(3)).is_ok());
}

#[test]
fn set_treasury_needs_authority_and_a_treasury() {
    let mut acc = set_treasury::SetTreasury { authority: addr(9), store_config: config() };
    assert_eq!(set_treasury::handler(&mut acc, addr(4)).unwrap_err(), ProgramError::HasOneMismatch);
    assert_eq!(acc.store_config.treasury.bytes, [2; 32]);
    acc.authority = addr(1);
    assert_eq!(
        set_treasury::handler(&mut acc, Address::zero()).unwrap_err(),
        ProgramError::Store(StoreError::InvalidTreasury)
    );
    let e = set_treasury::handler(&mut acc, addr(4)).unwrap();
    assert_eq!(e.treasury.bytes, [4; 32]);
    assert_eq!(acc.store_config.treasury.bytes, [4; 32]);
}

#[test]
fn set_platform_fee_keeps_room_for_referrals() {
    let mut acc = set_platform_fee::SetPlatformFee { authority: addr(1), store_config: config() };
    assert_eq!(
        set_platform_fee::handler(&mut acc, 10_001).unwrap_err(),
        ProgramError::Store(StoreError::InvalidPlatformFeeBps)
    );
    // max referral is 1_000, so the fee may be at most 9_000
    assert_eq!(
        set_platform_fee::handler(&mut acc, 9_001).unwrap_err(),
        ProgramError::Store(StoreError::InvalidPlatformFeeBps)
    );
    assert_eq!(acc.store_config.platform_fee_bps, 500);
    let e = set_platform_fee::handler(&mut acc, 9_000).unwrap();
    assert_eq!(e.platform_fee_bps, 9_000);
    assert_eq!(acc.store_config.platform_fee_bps, 9_000);
    acc.authority = addr(2);
    assert_eq!(set_platform_fee::handler(&mut acc, 1).unwrap_err(), ProgramError::HasOneMismatch);
}

#[test]
fn set_default_referral_at_most_max() {
    let mut acc = set_default_referral::SetDefaultReferral { authority: addr(1), store_config: config() };
    assert_eq!(
        set_default_referral::handler(&mut acc, 1_001).unwrap_err(),
        ProgramError::Store(StoreError::InvalidDefaultReferralBps)
    );
    assert_eq!(set_default_referral::handler(&mut acc, 1_000).unwrap().default_referral_bps, 1_000);
    assert_eq!(acc.store_config.default_referral_bps, 1_000);
}

#[test]
fn set_max_referral_checks() {
    let mut acc = set_max_referral::SetMaxReferral { authority: addr(1), store_config: config() };
    assert_eq!(
        set_max_referral::handler(&mut acc, 5_001).unwrap_err(),
        ProgramError::Store(StoreError::InvalidMaxReferralBps)
    );
    // below the default of 300
    assert_eq!(
        set_max_referral::handler(&mut acc, 299).unwrap_err(),
        ProgramError::Store(StoreError::InvalidMaxReferralBps)
    );
    assert_eq!(set_max_referral::handler(&mut acc, 5_000).unwrap().max_referral_bps, 5_000);
    // fee 500 + max 5_000 fits; raise the fee so it no longer would
    let mut fee = set_platform_fee::SetPlatformFee { authority: addr(1), store_config: acc.store_config };
    assert!(set_platform_fee::handler(&mut fee, 5_001).is_err());
    set_platform_fee::handler(&mut fee, 5_000).unwrap();
    let mut acc = set_max_referral::SetMaxReferral { authority: addr(1), store_config: fee.store_config };
    assert!(set_max_referral::handler(&mut acc, 5_000).is_ok());
}

#[test]
fn set_store_actor_reports_old_and_new() {
    let mut acc = set_store_actor::SetStoreActor { authority: addr(7), store_config: config() };
    assert_eq!(
        set_store_actor::handler(&mut acc, addr(8)).unwrap_err(),
        ProgramError::Store(StoreError::Unauthorized)
    );
    acc.authority = addr(1);
    assert_eq!(
        set_store_actor::handler(&mut acc, Address::zero()).unwrap_err(),
        ProgramError::Store(StoreError::InvalidStoreActor)
    );
    let e = set_store_actor::handler(&mut acc, addr(8)).unwrap();
    assert_eq!(e.old_store_actor.bytes, [3; 32]);
    assert_eq!(e.new_store_actor.bytes, [8; 32]);
    assert_eq!(acc.store_config.store_actor.bytes, [8; 32]);
}
