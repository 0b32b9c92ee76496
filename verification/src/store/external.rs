//! Read-only views of accounts that other programs own: the license
//! program's games and authorized actors, and the registry's game records;
//! and the call that mints a license.
use vstd::prelude::*;
use crate::address::{keys_eq, Address};
use crate::store::errors::{ProgramError, StoreError};

verus! {

/// The license program's id.
pub fn pgl1_id() -> (a: Address)
    ensures
        a@ == seq![
            67u8, 136, 83, 220, 220, 190, 194, 172, 139, 118, 136, 149, 64, 250, 127, 73, 133, 210,
            180, 158, 53, 67, 176, 171, 200, 202, 217, 154, 134, 94, 105, 244,
        ],
{
    let a = Address {
        bytes: [
            67u8, 136, 83, 220, 220, 190, 194, 172, 139, 118, 136, 149, 64, 250, 127, 73, 133, 210,
            180, 158, 53, 67, 176, 171, 200, 202, 217, 154, 134, 94, 105, 244,
        ],
    };
    assert(a@ =~= seq![
        67u8, 136, 83, 220, 220, 190, 194, 172, 139, 118, 136, 149, 64, 250, 127, 73, 133, 210,
        180, 158, 53, 67, 176, 171, 200, 202, 217, 154, 134, 94, 105, 244,
    ]);
    a
}

/// The registry program's id.
pub fn registry_id() -> (a: Address)
    ensures
        a@ == seq![
            116u8, 57, 20, 57, 143, 205, 102, 105, 54, 44, 74, 19, 161, 214, 168, 226, 211, 93, 179,
            160, 39, 233, 249, 255, 209, 133, 163, 181, 191, 13, 200, 188,
        ],
{
    let a = Address {
        bytes: [
            116u8, 57, 20, 57, 143, 205, 102, 105, 54, 44, 74, 19, 161, 214, 168, 226, 211, 93, 179,
            160, 39, 233, 249, 255, 209, 133, 163, 181, 191, 13, 200, 188,
        ],
    };
    assert(a@ =~= seq![
        116u8, 57, 20, 57, 143, 205, 102, 105, 54, 44, 74, 19, 161, 214, 168, 226, 211, 93, 179,
        160, 39, 233, 249, 255, 209, 133, 163, 181, 191, 13, 200, 188,
    ]);
    a
}

/// The license program, as a program account's expected id.
pub struct Pgl1Program;

impl Pgl1Program {
    /// The license program's id.
    pub fn id() -> (a: Address)
        ensures
            a@ == pgl1_spec_id(),
    {
        pgl1_id()
    }
}

/// The registry program, as a program account's expected id.
pub struct RegistryProgram;

impl RegistryProgram {
    /// The registry program's id.
    pub fn id() -> (a: Address)
        ensures
            a@ == registry_spec_id(),
    {
        registry_id()
    }
}

/// Seed of the license program's authorized-actor addresses.
pub fn authorized_actor_seed() -> (s: Vec<u8>)
    ensures
        s@ == seq![97u8, 117, 116, 104, 111, 114, 105, 122, 101, 100, 95, 97, 99, 116, 111, 114],
{
    vec![97u8, 117, 116, 104, 111, 114, 105, 122, 101, 100, 95, 97, 99, 116, 111, 114]
}

/// Seed of the license program's license addresses: "license".
pub fn license_seed() -> (s: Vec<u8>)
    ensures
        s@ == seq![108u8, 105, 99, 101, 110, 115, 101],
{
    vec![108u8, 105, 99, 101, 110, 115, 101]
}

/// Discriminator of the license program's game accounts.
pub open spec fn pgl_game_disc() -> Seq<u8> {
    seq![27u8, 90, 166, 125, 74, 100, 121, 18]
}

/// Discriminator of the license program's authorized-actor accounts.
pub open spec fn pgl_authorized_actor_disc() -> Seq<u8> {
    seq![155u8, 89, 1, 231, 51, 170, 32, 23]
}

/// Discriminator of the registry's game accounts.
pub open spec fn registry_game_disc() -> Seq<u8> {
    seq![44u8, 59, 51, 135, 203, 140, 48, 151]
}

/// Discriminator of the license program's `mint_license` instruction.
pub open spec fn mint_license_disc() -> Seq<u8> {
    seq![57u8, 204, 93, 84, 160, 241, 254, 52]
}

/// An account as the runtime hands it over: its address, its owner and its
/// data.
#[derive(Clone, Debug)]
pub struct AccountView {
    pub address: Address,
    pub owner: Address,
    pub data: Vec<u8>,
}

/// The first check of an account of another program that fails: the
/// owner, then the length, then the discriminator.
pub open spec fn external_account_error(
    view: AccountView,
    owner: Seq<u8>,
    disc: Seq<u8>,
    min_len: int,
) -> Option<ProgramError> {
    if view.owner@ != owner {
        Some(ProgramError::IllegalOwner)
    } else if view.data@.len() < min_len {
        Some(ProgramError::AccountDataTooSmall)
    } else if view.data@.subrange(0, 8) != disc {
        Some(ProgramError::InvalidAccountData)
    } else {
        None
    }
}

/// Whether `data` starts with the eight bytes of `disc`.
fn starts_with_disc(data: &Vec<u8>, disc: &[u8; 8]) -> (r: bool)
    requires
        data@.len() >= 8,
    ensures
        r == (data@.subrange(0, 8) == disc@),
{
    let mut i: usize = 0;
    while i < 8
        invariant
            i <= 8,
            data@.len() >= 8,
            disc@.len() == 8,
            forall|j: int| 0 <= j < i ==> data@[j] == disc@[j],
        decreases 8 - i,
    {
        if data[i] != disc[i] {
            assert(data@.subrange(0, 8)[i as int] != disc@[i as int]);
            return false;
        }
        i = i + 1;
    }
    assert(data@.subrange(0, 8) =~= disc@);
    true
}

/// Checks an account of another program: owner, length and discriminator.
fn check_external_account(view: &AccountView, owner: &Address, disc: &[u8; 8], min_len: usize) -> (r:
    Result<(), ProgramError>)
    requires
        min_len >= 8,
    ensures
        match external_account_error(*view, owner@, disc@, min_len as int) {
            Some(e) => r == Err::<(), ProgramError>(e),
            None => r is Ok,
        },
{
    if !keys_eq(&view.owner, owner) {
        return Err(ProgramError::IllegalOwner);
    }
    if view.data.len() < min_len {
        return Err(ProgramError::AccountDataTooSmall);
    }
    if !starts_with_disc(&view.data, disc) {
        return Err(ProgramError::InvalidAccountData);
    }
    Ok(())
}

/// The 32 bytes at `offset`, or `AccountDataTooSmall` where the data ends
/// before them.
fn read_address(data: &Vec<u8>, offset: usize) -> (r: Result<Address, ProgramError>)
    ensures
        offset + 32 <= data@.len() ==> (r matches Ok(a) && a@ == data@.subrange(
            offset as int,
            offset + 32,
        )),
        offset + 32 > data@.len() ==> r == Err::<Address, ProgramError>(
            ProgramError::AccountDataTooSmall,
        ),
{
    if offset > data.len() || data.len() - offset < 32 {
        return Err(ProgramError::AccountDataTooSmall);
    }
    let mut bytes = [0u8; 32];
    let mut i: usize = 0;
    while i < 32
        invariant
            i <= 32,
            offset + 32 <= data.len(),
            bytes@.len() == 32,
            forall|j: int| 0 <= j < i ==> bytes@[j] == data@[offset + j],
        decreases 32 - i,
    {
        bytes[i] = data[offset + i];
        i = i + 1;
    }
    assert(bytes@ =~= data@.subrange(offset as int, offset + 32));
    Ok(Address { bytes })
}

/// A game of the license program: 8 bytes of discriminator, 32 of id,
/// 8 of counter, then the publisher.
#[derive(Debug)]
pub struct PglGame {
    view: AccountView,
}

impl PglGame {
    #[verifier::type_invariant]
    spec fn inv(self) -> bool {
        external_account_error(self.view, pgl1_spec_id(), pgl_game_disc(), 80) is None
    }

    /// The account behind the view.
    pub closed spec fn account(self) -> AccountView {
        self.view
    }

    /// Checks that the account is a game of the license program.
    pub fn from_account_view(view: AccountView) -> (r: Result<PglGame, ProgramError>)
        ensures
            match external_account_error(view, pgl1_spec_id(), pgl_game_disc(), 80) {
                Some(e) => r matches Err(x) && x == e,
                None => r matches Ok(g) && g.account() == view,
            },
    {
        let disc: [u8; 8] = [27u8, 90, 166, 125, 74, 100, 121, 18];
        assert(disc@ =~= pgl_game_disc());
        match check_external_account(&view, &pgl1_id(), &disc, 80) {
            Err(e) => Err(e),
            Ok(()) => Ok(PglGame { view }),
        }
    }

    /// The game's address.
    pub fn address(&self) -> (a: Address)
        ensures
            a == self.account().address,
    {
        self.view.address
    }

    /// The game's publisher.
    pub fn publisher(&self) -> (r: Result<Address, ProgramError>)
        ensures
            r matches Ok(a) && a@ == pgl_game_publisher(self.account().data@),
    {
        proof {
            use_type_invariant(self);
        }
        read_address(&self.view.data, 8 + 32 + 8)
    }
}

/// The publisher that a game account names.
pub open spec fn pgl_game_publisher(data: Seq<u8>) -> Seq<u8> {
    data.subrange(48, 80)
}

/// The license program's id, as bytes.
pub open spec fn pgl1_spec_id() -> Seq<u8> {
    seq![
        67u8, 136, 83, 220, 220, 190, 194, 172, 139, 118, 136, 149, 64, 250, 127, 73, 133, 210,
        180, 158, 53, 67, 176, 171, 200, 202, 217, 154, 134, 94, 105, 244,
    ]
}

/// The registry's id, as bytes.
pub open spec fn registry_spec_id() -> Seq<u8> {
    seq![
        116u8, 57, 20, 57, 143, 205, 102, 105, 54, 44, 74, 19, 161, 214, 168, 226, 211, 93, 179,
        160, 39, 233, 249, 255, 209, 133, 163, 181, 191, 13, 200, 188,
    ]
}

/// An actor that the license program lets mint licenses: 8 bytes of
/// discriminator, the actor, an active flag and a bump.
#[derive(Debug)]
pub struct PglAuthorizedActor {
    view: AccountView,
}

impl PglAuthorizedActor {
    #[verifier::type_invariant]
    spec fn inv(self) -> bool {
        external_account_error(self.view, pgl1_spec_id(), pgl_authorized_actor_disc(), 42) is None
    }

    /// The account behind the view.
    pub closed spec fn account(self) -> AccountView {
        self.view
    }

    /// Checks that the account is an authorized actor of the license program.
    pub fn from_account_view(view: AccountView) -> (r: Result<PglAuthorizedActor, ProgramError>)
        ensures
            match external_account_error(view, pgl1_spec_id(), pgl_authorized_actor_disc(), 42) {
                Some(e) => r matches Err(x) && x == e,
                None => r matches Ok(g) && g.account() == view,
            },
    {
        let disc: [u8; 8] = [155u8, 89, 1, 231, 51, 170, 32, 23];
        assert(disc@ =~= pgl_authorized_actor_disc());
        match check_external_account(&view, &pgl1_id(), &disc, 42) {
            Err(e) => Err(e),
            Ok(()) => Ok(PglAuthorizedActor { view }),
        }
    }

    /// The record's address.
    pub fn address(&self) -> (a: Address)
        ensures
            a == self.account().address,
    {
        self.view.address
    }

    /// The actor that the record authorizes.
    pub fn actor(&self) -> (r: Result<Address, ProgramError>)
        ensures
            r matches Ok(a) && a@ == self.account().data@.subrange(8, 40),
    {
        proof {
            use_type_invariant(self);
        }
        read_address(&self.view.data, 8)
    }

    /// Whether the authorization is active: byte 40 is not zero.
    pub fn active(&self) -> (r: Result<bool, ProgramError>)
        ensures
            r == Ok::<bool, ProgramError>(self.account().data@[40] != 0),
    {
        proof {
            use_type_invariant(self);
        }
        if self.view.data.len() < 41 {
            return Err(ProgramError::AccountDataTooSmall);
        }
        Ok(self.view.data[40] != 0)
    }

    /// The bump of the record's address: byte 41.
    pub fn bump(&self) -> (r: Result<u8, ProgramError>)
        ensures
            r == Ok::<u8, ProgramError>(self.account().data@[41]),
    {
        proof {
            use_type_invariant(self);
        }
        if self.view.data.len() < 42 {
            return Err(ProgramError::AccountDataTooSmall);
        }
        Ok(self.view.data[41])
    }
}

/// Where the registry stands on a game.
#[derive(Clone, Copy, Debug, PartialEq, Eq, Structural)]
pub enum RegistryGameStatus {
    Active,
    Suspended,
    Banned,
    Unknown,
}

/// The status that a status byte means.
pub open spec fn status_of_byte(b: u8) -> RegistryGameStatus {
    if b == 0 {
        RegistryGameStatus::Active
    } else if b == 1 {
        RegistryGameStatus::Suspended
    } else if b == 2 {
        RegistryGameStatus::Banned
    } else {
        RegistryGameStatus::Unknown
    }
}

/// The registry's record of a game: 8 bytes of discriminator, the game,
/// 8 bytes, then the status byte.
#[derive(Debug)]
pub struct RegistryGame {
    view: AccountView,
}

impl RegistryGame {
    #[verifier::type_invariant]
    spec fn inv(self) -> bool {
        external_account_error(self.view, registry_spec_id(), registry_game_disc(), 53) is None
    }

    /// The account behind the view.
    pub closed spec fn account(self) -> AccountView {
        self.view
    }

    /// Checks that the account is a game record of the registry.
    pub fn from_account_view(view: AccountView) -> (r: Result<RegistryGame, ProgramError>)
        ensures
            match external_account_error(view, registry_spec_id(), registry_game_disc(), 53) {
                Some(e) => r matches Err(x) && x == e,
                None => r matches Ok(g) && g.account() == view,
            },
    {
        let disc: [u8; 8] = [44u8, 59, 51, 135, 203, 140, 48, 151];
        assert(disc@ =~= registry_game_disc());
        match check_external_account(&view, &registry_id(), &disc, 53) {
            Err(e) => Err(e),
            Ok(()) => Ok(RegistryGame { view }),
        }
    }

    /// The record's address.
    pub fn address(&self) -> (a: Address)
        ensures
            a == self.account().address,
    {
        self.view.address
    }

    /// The game that the record is about.
    pub fn game(&self) -> (r: Result<Address, ProgramError>)
        ensures
            r matches Ok(a) && a@ == registry_game_game(self.account().data@),
    {
        proof {
            use_type_invariant(self);
        }
        read_address(&self.view.data, 8)
    }

    /// The game's status in the registry: byte 48.
    pub fn status(&self) -> (r: Result<RegistryGameStatus, ProgramError>)
        ensures
            r == Ok::<RegistryGameStatus, ProgramError>(registry_game_status(self.account().data@)),
    {
        proof {
            use_type_invariant(self);
        }
        let status_offset: usize = 8 + 32 + 8;
        if self.view.data.len() <= status_offset {
            return Err(ProgramError::AccountDataTooSmall);
        }
        let b = self.view.data[status_offset];
        let status = if b == 0 {
            RegistryGameStatus::Active
        } else if b == 1 {
            RegistryGameStatus::Suspended
        } else if b == 2 {
            RegistryGameStatus::Banned
        } else {
            RegistryGameStatus::Unknown
        };
        Ok(status)
    }
}

/// The game that a registry record names.
pub open spec fn registry_game_game(data: Seq<u8>) -> Seq<u8> {
    data.subrange(8, 40)
}

/// The status that a registry record holds.
pub open spec fn registry_game_status(data: Seq<u8>) -> RegistryGameStatus {
    status_of_byte(data[48])
}

/// Fails with `GameNotActive` unless the registry holds the game active.
pub fn assert_active_registry_game(registry_game: &RegistryGame) -> (r: Result<(), ProgramError>)
    ensures
        registry_game_status(registry_game.account().data@) == RegistryGameStatus::Active ==> r
            is Ok,
        registry_game_status(registry_game.account().data@) != RegistryGameStatus::Active ==> r
            == Err::<(), ProgramError>(ProgramError::Store(StoreError::GameNotActive)),
{
    let status = registry_game.status()?;
    match status {
        RegistryGameStatus::Active => Ok(()),
        _ => Err(ProgramError::Store(StoreError::GameNotActive)),
    }
}

/// An account that an instruction passes on to another program, with
/// whether it signs and whether it may be written.
#[derive(Clone, Copy, Debug)]
pub struct InstructionAccount {
    pub address: Address,
    pub is_signer: bool,
    pub is_writable: bool,
}

/// A call of another program: its id, its accounts and its data.
#[derive(Clone, Debug)]
pub struct CpiCall {
    pub program_id: Address,
    pub accounts: Vec<InstructionAccount>,
    pub data: Vec<u8>,
}

/// The license program's `mint_license` call: the actor signs, the license
/// account is written, and the data is the discriminator followed by a 0
/// (no expiry).
pub fn mint_license(
    pgl1_program: Address,
    actor: Address,
    holder: Address,
    authorized_actor: Address,
    game: Address,
    license: Address,
    system_program: Address,
) -> (call: CpiCall)
    ensures
        call.program_id == pgl1_program,
        call.data@ == mint_license_disc().push(0u8),
        call.accounts@ == seq![
            InstructionAccount { address: actor, is_signer: true, is_writable: false },
            InstructionAccount { address: holder, is_signer: false, is_writable: false },
            InstructionAccount { address: authorized_actor, is_signer: false, is_writable: false },
            InstructionAccount { address: game, is_signer: false, is_writable: false },
            InstructionAccount { address: license, is_signer: false, is_writable: true },
            InstructionAccount { address: system_program, is_signer: false, is_writable: false },
        ],
{
    let data = vec![57u8, 204, 93, 84, 160, 241, 254, 52, 0];
    let accounts = vec![
        InstructionAccount { address: actor, is_signer: true, is_writable: false },
        InstructionAccount { address: holder, is_signer: false, is_writable: false },
        InstructionAccount { address: authorized_actor, is_signer: false, is_writable: false },
        InstructionAccount { address: game, is_signer: false, is_writable: false },
        InstructionAccount { address: license, is_signer: false, is_writable: true },
        InstructionAccount { address: system_program, is_signer: false, is_writable: false },
    ];
    assert(data@ =~= mint_license_disc().push(0u8));
    assert(accounts@ =~= seq![
        InstructionAccount { address: actor, is_signer: true, is_writable: false },
        InstructionAccount { address: holder, is_signer: false, is_writable: false },
        InstructionAccount { address: authorized_actor, is_signer: false, is_writable: false },
        InstructionAccount { address: game, is_signer: false, is_writable: false },
        InstructionAccount { address: license, is_signer: false, is_writable: true },
        InstructionAccount { address: system_program, is_signer: false, is_writable: false },
    ]);
    CpiCall { program_id: pgl1_program, accounts, data }
}

} // verus!
