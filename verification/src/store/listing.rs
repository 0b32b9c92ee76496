//! A simpler sale flow: one configuration, one price account per game, and
//! one balance account per publisher, with the platform fee as the only
//! share.
use vstd::prelude::*;
use crate::address::{keys_eq, zero_bytes, Address};
use crate::derive::system_program_id;
use crate::store::external::{CpiCall, InstructionAccount};
use crate::store::instructions::buy_game::bps_of;
use crate::store::states::GameStoreError;

verus! {

/// The configuration of the simpler flow.
#[derive(Clone, Copy, Debug)]
pub struct StoreConfig {
    pub governance: Address,
    pub treasury: Address,
    pub platform_fee_bps: u16,
    pub bump: u8,
}

/// A game's price.
#[derive(Clone, Copy, Debug)]
pub struct PriceAccount {
    pub game: Address,
    pub price: u64,
    pub currency: Address,
    pub bump: u8,
}

/// What the store holds for a publisher.
#[derive(Clone, Copy, Debug)]
pub struct PublisherBalanceAccount {
    pub publisher: Address,
    pub token: Address,
    pub amount: u64,
    pub bump: u8,
}

/// The accounts of `initialize_handler`.
pub struct Initialize {
    pub authority: Address,
    pub config_bump: u8,
}

/// Creates the configuration, with the signer as governance.
pub fn initialize_handler(accounts: &Initialize, platform_fee_bps: u16, treasury: Address) -> (r:
    StoreConfig)
    ensures
        r == (StoreConfig {
            governance: accounts.authority,
            treasury,
            platform_fee_bps,
            bump: accounts.config_bump,
        }),
{
    StoreConfig { governance: accounts.authority, treasury, platform_fee_bps, bump: accounts.config_bump }
}

/// The accounts of `set_price_handler`.
pub struct SetPrice {
    pub publisher: Address,
    pub game: Address,
    pub price_account: PriceAccount,
    pub price_account_bump: u8,
}

/// Writes the game's price and currency.
pub fn set_price_handler(accounts: &mut SetPrice, price: u64, currency: Address)
    ensures
        final(accounts).price_account == (PriceAccount {
            game: old(accounts).game,
            price,
            currency,
            bump: old(accounts).price_account_bump,
        }),
        final(accounts).game == old(accounts).game,
        final(accounts).publisher == old(accounts).publisher,
{
    accounts.price_account = PriceAccount {
        game: accounts.game,
        price,
        currency,
        bump: accounts.price_account_bump,
    };
}

/// A transfer: native lamports through the System program, or tokens
/// through the token program.
#[derive(Clone, Copy, Debug)]
pub struct SaleTransfer {
    pub native: bool,
    pub from: Address,
    pub to: Address,
    pub amount: u64,
}

/// The accounts of `buy_game_handler`.
pub struct BuyGame {
    pub buyer: Address,
    pub config: StoreConfig,
    pub config_address: Address,
    pub treasury: Address,
    pub game: Address,
    pub price_account: PriceAccount,
    pub publisher: Address,
    pub publisher_balance: PublisherBalanceAccount,
    pub publisher_balance_address: Address,
    pub pgc_program: Address,
    pub minter_pda: Address,
    pub license_pda: Address,
    pub buyer_token_account: Address,
    pub treasury_token_account: Address,
    pub publisher_token_account: Address,
    pub system_program: Address,
}

/// What a sale does: two transfers (fee to the treasury, the rest to the
/// publisher's balance), and the license call that the configuration signs
/// with its seeds.
#[derive(Debug)]
pub struct Sale {
    pub transfers: Vec<SaleTransfer>,
    pub license_mint: CpiCall,
    pub config_signer_seeds: Vec<Vec<u8>>,
}

/// The platform fee of a price: the fee share truncated to 64 bits, as the
/// cast does.
pub open spec fn listing_fee(price: u64, platform_fee_bps: u16) -> u64 {
    bps_of(price as int, platform_fee_bps as int) as u64
}

/// Sells the game: the fee goes to the treasury and the rest to the
/// publisher's balance, which records it, and the license program mints the
/// license. The treasury must be the configuration's. The fee may not pass
/// the price, nor the balance overflow (the arithmetic would fail).
pub fn buy_game_handler(accounts: &mut BuyGame) -> (r: Result<Sale, GameStoreError>)
    requires
        old(accounts).treasury@ == old(accounts).config.treasury@ ==> listing_fee(
            old(accounts).price_account.price,
            old(accounts).config.platform_fee_bps,
        ) <= old(accounts).price_account.price && old(accounts).publisher_balance.amount + (old(accounts).price_account.price - listing_fee(
            old(accounts).price_account.price,
            old(accounts).config.platform_fee_bps,
        )) <= u64::MAX,
    ensures
        old(accounts).treasury@ != old(accounts).config.treasury@ ==> r == Err::<Sale, GameStoreError>(
            GameStoreError::InvalidTreasury,
        ) && final(accounts).publisher_balance == old(accounts).publisher_balance,
        old(accounts).treasury@ == old(accounts).config.treasury@ ==> ({
            let a = *old(accounts);
            let price = a.price_account.price;
            let fee = listing_fee(price, a.config.platform_fee_bps);
            let native = a.price_account.currency@ == zero_bytes();
            r matches Ok(sale) && sale.transfers@ == seq![
                SaleTransfer {
                    native,
                    from: if native {
                        a.buyer
                    } else {
                        a.buyer_token_account
                    },
                    to: if native {
                        a.treasury
                    } else {
                        a.treasury_token_account
                    },
                    amount: fee,
                },
                SaleTransfer {
                    native,
                    from: if native {
                        a.buyer
                    } else {
                        a.buyer_token_account
                    },
                    to: if native {
                        a.publisher_balance_address
                    } else {
                        a.publisher_token_account
                    },
                    amount: (price - fee) as u64,
                },
            ] && final(accounts).publisher_balance == (PublisherBalanceAccount {
                publisher: a.publisher,
                token: a.price_account.currency,
                amount: (a.publisher_balance.amount + (price - fee)) as u64,
                bump: a.publisher_balance.bump,
            }) && sale.license_mint.program_id == a.pgc_program
                && sale.license_mint.data@ == seq![
                57u8, 204, 93, 84, 160, 241, 254, 52, 0, 0, 0, 0, 0, 0, 0, 0,
            ] && sale.license_mint.accounts@ == seq![
                InstructionAccount { address: a.config_address, is_signer: true, is_writable: false },
                InstructionAccount { address: a.minter_pda, is_signer: false, is_writable: false },
                InstructionAccount { address: a.game, is_signer: false, is_writable: false },
                InstructionAccount { address: a.buyer, is_signer: true, is_writable: true },
                InstructionAccount { address: a.license_pda, is_signer: false, is_writable: true },
                InstructionAccount {
                    address: a.system_program,
                    is_signer: false,
                    is_writable: false,
                },
            ] && sale.config_signer_seeds.deep_view() == seq![
                seq![99u8, 111, 110, 102, 105, 103],
                seq![a.config.bump],
            ]
        }),
        final(accounts).config == old(accounts).config,
        final(accounts).price_account == old(accounts).price_account,
{
    if !keys_eq(&accounts.treasury, &accounts.config.treasury) {
        return Err(GameStoreError::InvalidTreasury);
    }
    let price = accounts.price_account.price;
    let p = price as u128;
    let b = accounts.config.platform_fee_bps as u128;
    assert(p * b <= 0xFFFF_FFFF_FFFF_FFFFu128 * 0xFFFFu128) by (nonlinear_arith)
        requires
            p <= 0xFFFF_FFFF_FFFF_FFFFu128,
            b <= 0xFFFFu128,
    ;
    let platform_fee = ((p * b) / 10000) as u64;
    let publisher_amount = price - platform_fee;
    let currency = accounts.price_account.currency;
    let native = keys_eq(&currency, &system_program_id());
    let (from, fee_to, rest_to) = if native {
        (accounts.buyer, accounts.treasury, accounts.publisher_balance_address)
    } else {
        (accounts.buyer_token_account, accounts.treasury_token_account, accounts.publisher_token_account)
    };
    let transfers = vec![
        SaleTransfer { native, from, to: fee_to, amount: platform_fee },
        SaleTransfer { native, from, to: rest_to, amount: publisher_amount },
    ];
    accounts.publisher_balance.publisher = accounts.publisher;
    accounts.publisher_balance.token = currency;
    accounts.publisher_balance.amount = accounts.publisher_balance.amount + publisher_amount;
    let data = vec![57u8, 204, 93, 84, 160, 241, 254, 52, 0, 0, 0, 0, 0, 0, 0, 0];
    let metas = vec![
        InstructionAccount { address: accounts.config_address, is_signer: true, is_writable: false },
        InstructionAccount { address: accounts.minter_pda, is_signer: false, is_writable: false },
        InstructionAccount { address: accounts.game, is_signer: false, is_writable: false },
        InstructionAccount { address: accounts.buyer, is_signer: true, is_writable: true },
        InstructionAccount { address: accounts.license_pda, is_signer: false, is_writable: true },
        InstructionAccount { address: accounts.system_program, is_signer: false, is_writable: false },
    ];
    let seed = vec![99u8, 111, 110, 102, 105, 103];
    let bump = vec![accounts.config.bump];
    proof {
        assert(seed@ =~= seq![99u8, 111, 110, 102, 105, 103]);
        assert(bump@ =~= seq![accounts.config.bump]);
        assert(seed.deep_view() =~= seed@);
        assert(bump.deep_view() =~= bump@);
    }
    let config_signer_seeds = vec![seed, bump];
    proof {
        assert(config_signer_seeds.deep_view() =~= seq![
            seq![99u8, 111, 110, 102, 105, 103],
            seq![accounts.config.bump],
        ]);
        assert(transfers@ =~= seq![
            SaleTransfer { native, from, to: fee_to, amount: platform_fee },
            SaleTransfer { native, from, to: rest_to, amount: publisher_amount },
        ]);
        assert(data@ =~= seq![57u8, 204, 93, 84, 160, 241, 254, 52, 0, 0, 0, 0, 0, 0, 0, 0]);
    }
    let license_mint = CpiCall { program_id: accounts.pgc_program, accounts: metas, data };
    Ok(Sale { transfers, license_mint, config_signer_seeds })
}

/// The accounts of `withdraw_handler`.
pub struct Withdraw {
    pub publisher: Address,
    pub balance_account: PublisherBalanceAccount,
    pub balance_address: Address,
    pub vault_token_account: Address,
    pub publisher_token_account: Address,
}

/// What a withdrawal moves: the whole balance, as lamports from the balance
/// account or as tokens from its vault, which the balance account signs for
/// with its seeds.
#[derive(Debug)]
pub struct Withdrawal {
    pub transfer: SaleTransfer,
    pub balance_signer_seeds: Vec<Vec<u8>>,
}

/// Empties the publisher's balance account. Only its publisher may.
pub fn withdraw_handler(accounts: &mut Withdraw) -> (r: Result<Withdrawal, GameStoreError>)
    ensures
        old(accounts).balance_account.publisher@ != old(accounts).publisher@ ==> r == Err::<
            Withdrawal,
            GameStoreError,
        >(GameStoreError::Unauthorized) && final(accounts).balance_account == old(accounts).balance_account,
        old(accounts).balance_account.publisher@ == old(accounts).publisher@ ==> ({
            let a = *old(accounts);
            let native = a.balance_account.token@ == zero_bytes();
            r matches Ok(w) && w.transfer == (SaleTransfer {
                native,
                from: if native {
                    a.balance_address
                } else {
                    a.vault_token_account
                },
                to: if native {
                    a.publisher
                } else {
                    a.publisher_token_account
                },
                amount: a.balance_account.amount,
            }) && w.balance_signer_seeds.deep_view() == seq![
                seq![98u8, 97, 108, 97, 110, 99, 101],
                a.publisher@,
                seq![a.balance_account.bump],
            ] && final(accounts).balance_account == (PublisherBalanceAccount {
                amount: 0,
                ..a.balance_account
            })
        }),
        final(accounts).publisher == old(accounts).publisher,
{
    if !keys_eq(&accounts.balance_account.publisher, &accounts.publisher) {
        return Err(GameStoreError::Unauthorized);
    }
    let amount = accounts.balance_account.amount;
    let token = accounts.balance_account.token;
    accounts.balance_account.amount = 0;
    let native = keys_eq(&token, &system_program_id());
    let transfer = if native {
        SaleTransfer { native, from: accounts.balance_address, to: accounts.publisher, amount }
    } else {
        SaleTransfer {
            native,
            from: accounts.vault_token_account,
            to: accounts.publisher_token_account,
            amount,
        }
    };
    let seed = vec![98u8, 97, 108, 97, 110, 99, 101];
    let key = accounts.publisher.to_vec();
    let bump = vec![accounts.balance_account.bump];
    proof {
        assert(seed@ =~= seq![98u8, 97, 108, 97, 110, 99, 101]);
        assert(bump@ =~= seq![accounts.balance_account.bump]);
        assert(seed.deep_view() =~= seed@);
        assert(key.deep_view() =~= key@);
        assert(bump.deep_view() =~= bump@);
    }
    let balance_signer_seeds = vec![seed, key, bump];
    proof {
        assert(balance_signer_seeds.deep_view() =~= seq![
            seq![98u8, 97, 108, 97, 110, 99, 101],
            accounts.publisher@,
            seq![accounts.balance_account.bump],
        ]);
    }
    Ok(Withdrawal { transfer, balance_signer_seeds })
}

/// The accounts of the governance-only settings of the simpler flow.
pub struct GovernedConfig {
    pub governance: Address,
    pub config: StoreConfig,
}

/// Sets the platform fee. Only the governance may; the fee is not checked.
pub fn set_platform_fee_handler(accounts: &mut GovernedConfig, bps: u16) -> (r: Result<
    (),
    GameStoreError,
>)
    ensures
        old(accounts).config.governance@ != old(accounts).governance@ ==> r == Err::<
            (),
            GameStoreError,
        >(GameStoreError::Unauthorized) && *final(accounts) == *old(accounts),
        old(accounts).config.governance@ == old(accounts).governance@ ==> r is Ok && final(accounts).config == (StoreConfig { platform_fee_bps: bps, ..old(accounts).config }),
        final(accounts).governance == old(accounts).governance,
{
    if !keys_eq(&accounts.config.governance, &accounts.governance) {
        return Err(GameStoreError::Unauthorized);
    }
    accounts.config.platform_fee_bps = bps;
    Ok(())
}

/// Sets the treasury. Only the governance may.
pub fn set_treasury_handler(accounts: &mut GovernedConfig, treasury: Address) -> (r: Result<
    (),
    GameStoreError,
>)
    ensures
        old(accounts).config.governance@ != old(accounts).governance@ ==> r == Err::<
            (),
            GameStoreError,
        >(GameStoreError::Unauthorized) && *final(accounts) == *old(accounts),
        old(accounts).config.governance@ == old(accounts).governance@ ==> r is Ok && final(accounts).config == (StoreConfig { treasury, ..old(accounts).config }),
        final(accounts).governance == old(accounts).governance,
{
    if !keys_eq(&accounts.config.governance, &accounts.governance) {
        return Err(GameStoreError::Unauthorized);
    }
    accounts.config.treasury = treasury;
    Ok(())
}

/// Accepts an affiliate setting from the governance; nothing is stored.
pub fn set_affiliate_handler(accounts: &GovernedConfig, affiliate: Address, bps: u16) -> (r: Result<
    (),
    GameStoreError,
>)
    ensures
        accounts.config.governance@ != accounts.governance@ ==> r == Err::<(), GameStoreError>(
            GameStoreError::Unauthorized,
        ),
        accounts.config.governance@ == accounts.governance@ ==> r is Ok,
{
    if !keys_eq(&accounts.config.governance, &accounts.governance) {
        return Err(GameStoreError::Unauthorized);
    }
    Ok(())
}

/// Accepts a subscription setting from the governance; nothing is stored.
pub fn set_subscription_handler(accounts: &GovernedConfig, duration: i64, price: u64) -> (r: Result<
    (),
    GameStoreError,
>)
    ensures
        accounts.config.governance@ != accounts.governance@ ==> r == Err::<(), GameStoreError>(
            GameStoreError::Unauthorized,
        ),
        accounts.config.governance@ == accounts.governance@ ==> r is Ok,
{
    if !keys_eq(&accounts.config.governance, &accounts.governance) {
        return Err(GameStoreError::Unauthorized);
    }
    Ok(())
}

} // verus!
