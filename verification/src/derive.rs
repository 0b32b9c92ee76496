//! Program-derived addresses and SHA-256, which the programs compute with
//! the account framework and the `sha2` crate.
use vstd::prelude::*;
use crate::address::Address;
use anchor_lang::prelude::Pubkey;

verus! {

/// The SHA-256 digest of `data`.
pub uninterp spec fn sha256(data: Seq<u8>) -> Seq<u8>;

/// The program address that `Pubkey::try_find_program_address` finds for
/// the seeds and the program: the address and its bump seed, or none.
pub uninterp spec fn program_address(seeds: Seq<Seq<u8>>, program_id: Seq<u8>) -> Option<(Seq<u8>, u8)>;

/// The address derived from seeds under a program, without its bump seed.
pub open spec fn derived_address(seeds: Seq<Seq<u8>>, program_id: Seq<u8>) -> Option<Seq<u8>> {
    match program_address(seeds, program_id) {
        Some((k, _)) => Some(k),
        None => None,
    }
}

/// Calls `sha2::Sha256::digest`. Trusted: the 32 bytes returned are the
/// SHA-256 digest of `data`, a function of `data` alone; nothing more of the
/// digest is stated.
#[verifier::external_body]
pub(crate) fn sha256_digest(data: &[u8]) -> (r: [u8; 32])
    ensures
        r@ == sha256(data@),
{
    <sha2::Sha256 as sha2::Digest>::digest(data).into()
}

/// Calls `Pubkey::try_find_program_address` (the account framework's
/// re-export of `solana_address::Address`). Trusted: the result is a
/// function of the seeds and the program id alone (the search hashes them
/// and tries the bump seeds from 255 down); `None` comes where no bump seed
/// gives an address off the curve, where there are 16 seeds or more, or
/// where a seed is longer than 32 bytes. Nothing more of the address is
/// stated.
#[verifier::external_body]
pub(crate) fn find_program_address(seeds: &Vec<Vec<u8>>, program_id: &Address) -> (r: Option<(Address, u8)>)
    ensures
        match program_address(seeds.deep_view(), program_id@) {
            Some((a, b)) => r matches Some((x, y)) && x@ == a && y == b,
            None => r is None,
        },
{
    let slices: Vec<&[u8]> = seeds.iter().map(|s| s.as_slice()).collect();
    let program = Pubkey::new_from_array(program_id.bytes);
    Pubkey::try_find_program_address(&slices, &program).map(|(k, b)| (Address { bytes: k.to_bytes() }, b))
}

/// The System program's id (`anchor_lang::system_program::ID`). Trusted:
/// the framework declares it as "11111111111111111111111111111111", the
/// base-58 text of 32 zero bytes.
#[verifier::external_body]
pub(crate) fn system_program_id() -> (r: Address)
    ensures
        r@ == crate::address::zero_bytes(),
{
    Address { bytes: anchor_lang::system_program::ID.to_bytes() }
}

} // verus!
