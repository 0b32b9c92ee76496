//! Registers a new game: checks its id and metadata, derives its license
//! mint, and plans the calls that create it in the license program, the
//! registry and the store.
use vstd::prelude::*;
use vstd::string::*;
use vstd::utf8::encode_utf8;
use crate::address::{keys_eq, Address};
use crate::derive::{find_program_address, program_address, sha256, sha256_digest};
use crate::factory::errors::{FactoryError, FactoryFailure};
use crate::factory::events::GameCreated;
use crate::factory::state::FactoryState;

verus! {

/// Whether a character has the Unicode `White_Space` property.
pub open spec fn is_white_space(c: char) -> bool {
    let u = c as u32;
    ||| 0x9 <= u <= 0xD
    ||| u == 0x20
    ||| u == 0x85
    ||| u == 0xA0
    ||| u == 0x1680
    ||| 0x2000 <= u <= 0x200A
    ||| u == 0x2028
    ||| u == 0x2029
    ||| u == 0x202F
    ||| u == 0x205F
    ||| u == 0x3000
}

/// Whether a character has the Unicode `White_Space` property, as
/// `char::is_whitespace` answers.
fn char_is_whitespace(c: char) -> (r: bool)
    ensures
        r == is_white_space(c),
{
    let u = c as u32;
    (0x9 <= u && u <= 0xD) || u == 0x20 || u == 0x85 || u == 0xA0 || u == 0x1680 || (0x2000 <= u
        && u <= 0x200A) || u == 0x2028 || u == 0x2029 || u == 0x202F || u == 0x205F || u == 0x3000
}

/// A text is blank when trimming its white space leaves nothing.
pub open spec fn is_blank(s: Seq<char>) -> bool {
    forall|i: int| 0 <= i < s.len() ==> is_white_space(#[trigger] s[i])
}

/// Whether `s.trim()` is empty.
pub fn trimmed_is_empty(s: &str) -> (r: bool)
    ensures
        r == is_blank(s@),
{
    let n = s.unicode_len();
    let mut i: usize = 0;
    while i < n
        invariant
            i <= n,
            n == s@.len(),
            forall|j: int| 0 <= j < i ==> is_white_space(#[trigger] s@[j]),
        decreases n - i,
    {
        let c = s.get_char(i);
        if !char_is_whitespace(c) {
            return false;
        }
        i = i + 1;
    }
    true
}

/// The factory's constants: the seeds of its state and of game mints, and
/// the longest game id and metadata URI, in bytes.
pub struct FactoryConstants {
    pub factory_state_seed: Vec<u8>,
    pub factory_mint_seed: Vec<u8>,
    pub max_game_id_len: usize,
    pub max_metadata_uri_len: usize,
}

/// The accounts of `create_game` that the factory checks, and the
/// factory's program id.
pub struct CreateGame {
    pub publisher: Address,
    pub factory_state: FactoryState,
    pub mint: Address,
    pub pgc_game_state: Address,
    pub registry_state: Address,
    pub registry_treasury: Address,
    pub treasury: Address,
    pub game_store: Address,
    pub program_id: Address,
}

/// The license program's `initialize` of the game, which the mint's seeds
/// sign: the id, the publisher and the metadata URI.
#[derive(Debug)]
pub struct LicenseInitialize {
    pub game_id: String,
    pub publisher: Address,
    pub metadata_uri: String,
}

/// The license program's `set_minter`: the account that may mint the
/// game's licenses, and whether it may.
#[derive(Clone, Copy, Debug)]
pub struct LicenseSetMinter {
    pub account: Address,
    pub enabled: bool,
}

/// The registry's `register_game_by_factory`, which the factory's seeds
/// sign: the id, the game, the publisher and how the publisher pays the
/// registration fee.
#[derive(Debug)]
pub struct RegistryRegistration {
    pub game_id: String,
    pub game: Address,
    pub publisher: Address,
    pub payment_method: Address,
}

/// The store's `set_price` of the game: the id, the price and its
/// currency.
#[derive(Debug)]
pub struct InitialPrice {
    pub game_id: String,
    pub price: u64,
    pub currency: Address,
}

/// What `create_game` hands on: the signer seeds of the mint (seed, digest
/// of the game id, bump) and of the factory (seed, bump); the calls that
/// create the game, to be made in the order of the fields; the game's
/// address, which is the license program's game state; and the event.
#[derive(Debug)]
pub struct GameCreation {
    pub mint_signer_seeds: Vec<Vec<u8>>,
    pub factory_signer_seeds: Vec<Vec<u8>>,
    pub license_initialize: LicenseInitialize,
    pub set_minter: LicenseSetMinter,
    pub registration: RegistryRegistration,
    pub initial_price: InitialPrice,
    pub game: Address,
    pub event: GameCreated,
}

/// The price, currency and registration payment method that a new game is
/// created with.
#[derive(Clone, Copy, Debug)]
pub struct GameTerms {
    pub initial_price: u64,
    pub initial_price_currency: Address,
    pub registration_payment_method: Address,
}

/// Why `create_game` fails, if it does: the registry, treasury and store
/// accounts must be the factory's; the id and URI must not be blank nor too
/// long; the mint must be the factory's mint address for the id's digest.
pub open spec fn create_game_error(
    a: CreateGame,
    c: FactoryConstants,
    game_id: Seq<char>,
    metadata_uri: Seq<char>,
) -> Option<FactoryFailure> {
    if a.registry_state@ != a.factory_state.registry@ {
        Some(FactoryFailure::ConstraintAddress)
    } else if a.treasury@ != a.registry_treasury@ {
        Some(FactoryFailure::ConstraintAddress)
    } else if a.game_store@ != a.factory_state.game_store@ {
        Some(FactoryFailure::ConstraintAddress)
    } else if is_blank(game_id) {
        Some(FactoryFailure::Factory(FactoryError::EmptyGameId))
    } else if is_blank(metadata_uri) {
        Some(FactoryFailure::Factory(FactoryError::EmptyMetadataUri))
    } else if encode_utf8(game_id).len() > c.max_game_id_len {
        Some(FactoryFailure::Factory(FactoryError::GameIdTooLong))
    } else if encode_utf8(metadata_uri).len() > c.max_metadata_uri_len {
        Some(FactoryFailure::Factory(FactoryError::MetadataUriTooLong))
    } else {
        match program_address(
            seq![c.factory_mint_seed@, sha256(encode_utf8(game_id))],
            a.program_id@,
        ) {
            None => Some(FactoryFailure::NoViableBump),
            Some((expected, _)) => if a.mint@ != expected {
                Some(FactoryFailure::Factory(FactoryError::InvalidMint))
            } else {
                None
            },
        }
    }
}

/// Whether a plan carries out the creation of the game: the signer seeds
/// of the mint (seed, digest, bump) and of the factory (seed, bump); the
/// license program initializes the game for the publisher and lets the
/// store mint; the registry registers it, paid as asked; the store prices
/// it; the game's address, and the event.
pub open spec fn creation_matches(
    g: GameCreation,
    a: CreateGame,
    c: FactoryConstants,
    game_id: Seq<char>,
    metadata_uri: Seq<char>,
    terms: GameTerms,
    digest: Seq<u8>,
    bump: u8,
) -> bool {
    &&& g.mint_signer_seeds.deep_view() == seq![c.factory_mint_seed@, digest, seq![bump]]
    &&& g.factory_signer_seeds.deep_view() == seq![c.factory_state_seed@, seq![a.factory_state.bump]]
    &&& g.license_initialize.game_id@ == game_id
    &&& g.license_initialize.publisher == a.publisher
    &&& g.license_initialize.metadata_uri@ == metadata_uri
    &&& g.set_minter == (LicenseSetMinter { account: a.game_store, enabled: true })
    &&& g.registration.game_id@ == game_id
    &&& g.registration.game == a.pgc_game_state
    &&& g.registration.publisher == a.publisher
    &&& g.registration.payment_method == terms.registration_payment_method
    &&& g.initial_price.game_id@ == game_id
    &&& g.initial_price.price == terms.initial_price
    &&& g.initial_price.currency == terms.initial_price_currency
    &&& g.game == a.pgc_game_state
    &&& g.event.game_id@ == game_id
    &&& g.event.metadata_uri@ == metadata_uri
    &&& g.event.publisher == a.publisher
    &&& g.event.game == a.pgc_game_state
    &&& g.event.mint == a.mint
}

/// Checks a new game and plans its creation.
pub fn handler(
    accounts: &CreateGame,
    constants: &FactoryConstants,
    game_id: String,
    metadata_uri: String,
    initial_price: u64,
    initial_price_currency: Address,
    registration_payment_method: Address,
) -> (r: Result<GameCreation, FactoryFailure>)
    ensures
        match create_game_error(*accounts, *constants, game_id@, metadata_uri@) {
            Some(e) => r matches Err(x) && x == e,
            None => r matches Ok(g) && {
                let digest = sha256(encode_utf8(game_id@));
                let found = program_address(
                    seq![constants.factory_mint_seed@, digest],
                    accounts.program_id@,
                )->0;
                let bump = found.1;
                let terms = GameTerms { initial_price, initial_price_currency, registration_payment_method };
                creation_matches(g, *accounts, *constants, game_id@, metadata_uri@, terms, digest, bump)
            },
        },
{
    if !keys_eq(&accounts.registry_state, &accounts.factory_state.registry) {
        return Err(FactoryFailure::ConstraintAddress);
    }
    if !keys_eq(&accounts.treasury, &accounts.registry_treasury) {
        return Err(FactoryFailure::ConstraintAddress);
    }
    if !keys_eq(&accounts.game_store, &accounts.factory_state.game_store) {
        return Err(FactoryFailure::ConstraintAddress);
    }
    if trimmed_is_empty(game_id.as_str()) {
        return Err(FactoryFailure::Factory(FactoryError::EmptyGameId));
    }
    if trimmed_is_empty(metadata_uri.as_str()) {
        return Err(FactoryFailure::Factory(FactoryError::EmptyMetadataUri));
    }
    if game_id.as_str().as_bytes().len() > constants.max_game_id_len {
        return Err(FactoryFailure::Factory(FactoryError::GameIdTooLong));
    }
    if metadata_uri.as_str().as_bytes().len() > constants.max_metadata_uri_len {
        return Err(FactoryFailure::Factory(FactoryError::MetadataUriTooLong));
    }
    let digest = sha256_digest(game_id.as_str().as_bytes());
    let digest_vec = digest_to_vec(&digest);
    let mint_seeds = vec![clone_bytes(&constants.factory_mint_seed), clone_bytes(&digest_vec)];
    proof {
        assert(mint_seeds.deep_view() =~= seq![constants.factory_mint_seed@, digest@]) by {
            assert(mint_seeds[0].deep_view() =~= mint_seeds[0]@);
            assert(mint_seeds[1].deep_view() =~= mint_seeds[1]@);
        }
    }
    let found_mint = find_program_address(&mint_seeds, &accounts.program_id);
    let terms = GameTerms { initial_price, initial_price_currency, registration_payment_method };
    plan_game_creation(accounts, constants, game_id, metadata_uri, terms, digest_vec, found_mint)
}

/// The creation of a game whose id and URI passed the checks, given the
/// digest of its id and the mint address found for it with its bump
/// (`None` where none was found): the mint account must be that address.
pub fn plan_game_creation(
    accounts: &CreateGame,
    constants: &FactoryConstants,
    game_id: String,
    metadata_uri: String,
    terms: GameTerms,
    digest: Vec<u8>,
    found_mint: Option<(Address, u8)>,
) -> (r: Result<GameCreation, FactoryFailure>)
    ensures
        match found_mint {
            None => r == Err::<GameCreation, FactoryFailure>(FactoryFailure::NoViableBump),
            Some((k, bump)) => if accounts.mint@ != k@ {
                r == Err::<GameCreation, FactoryFailure>(FactoryFailure::Factory(FactoryError::InvalidMint))
            } else {
                r matches Ok(g) && creation_matches(
                    g,
                    *accounts,
                    *constants,
                    game_id@,
                    metadata_uri@,
                    terms,
                    digest@,
                    bump,
                )
            },
        },
{
    let (expected_mint, mint_bump) = match found_mint {
        None => return Err(FactoryFailure::NoViableBump),
        Some(found) => found,
    };
    if !keys_eq(&accounts.mint, &expected_mint) {
        return Err(FactoryFailure::Factory(FactoryError::InvalidMint));
    }
    let mint_signer_seeds = vec![clone_bytes(&constants.factory_mint_seed), digest, vec![mint_bump]];
    let factory_signer_seeds = vec![
        clone_bytes(&constants.factory_state_seed),
        vec![accounts.factory_state.bump],
    ];
    proof {
        assert(mint_signer_seeds.deep_view() =~= seq![
            constants.factory_mint_seed@,
            digest@,
            seq![mint_bump],
        ]) by {
            assert(mint_signer_seeds[0].deep_view() =~= mint_signer_seeds[0]@);
            assert(mint_signer_seeds[1].deep_view() =~= mint_signer_seeds[1]@);
            assert(mint_signer_seeds[2].deep_view() =~= seq![mint_bump]);
        }
        assert(factory_signer_seeds.deep_view() =~= seq![
            constants.factory_state_seed@,
            seq![accounts.factory_state.bump],
        ]) by {
            assert(factory_signer_seeds[0].deep_view() =~= factory_signer_seeds[0]@);
            assert(factory_signer_seeds[1].deep_view() =~= seq![accounts.factory_state.bump]);
        }
    }
    let license_initialize = LicenseInitialize {
        game_id: game_id.clone(),
        publisher: accounts.publisher,
        metadata_uri: metadata_uri.clone(),
    };
    let set_minter = LicenseSetMinter { account: accounts.game_store, enabled: true };
    let registration = RegistryRegistration {
        game_id: game_id.clone(),
        game: accounts.pgc_game_state,
        publisher: accounts.publisher,
        payment_method: terms.registration_payment_method,
    };
    let initial_price = InitialPrice {
        game_id: game_id.clone(),
        price: terms.initial_price,
        currency: terms.initial_price_currency,
    };
    let event = GameCreated {
        game_id,
        metadata_uri,
        publisher: accounts.publisher,
        game: accounts.pgc_game_state,
        mint: accounts.mint,
    };
    Ok(
        GameCreation {
            mint_signer_seeds,
            factory_signer_seeds,
            license_initialize,
            set_minter,
            registration,
            initial_price,
            game: accounts.pgc_game_state,
            event,
        },
    )
}

/// A copy of a byte vector.
fn clone_bytes(v: &Vec<u8>) -> (c: Vec<u8>)
    ensures
        c@ == v@,
{
    let mut c: Vec<u8> = Vec::new();
    let mut i: usize = 0;
    while i < v.len()
        invariant
            i <= v.len(),
            c@ == v@.subrange(0, i as int),
        decreases v.len() - i,
    {
        c.push(v[i]);
        i = i + 1;
        assert(c@ =~= v@.subrange(0, i as int));
    }
    assert(v@.subrange(0, v.len() as int) =~= v@);
    c
}

/// The 32 digest bytes, as a vector.
fn digest_to_vec(d: &[u8; 32]) -> (v: Vec<u8>)
    ensures
        v@ == d@,
{
    let mut v: Vec<u8> = Vec::new();
    let mut i: usize = 0;
    while i < 32
        invariant
            i <= 32,
            d@.len() == 32,
            v@ == d@.subrange(0, i as int),
        decreases 32 - i,
    {
        v.push(d[i]);
        i = i + 1;
        assert(v@ =~= d@.subrange(0, i as int));
    }
    assert(d@.subrange(0, 32) =~= d@);
    v
}

} // verus!
