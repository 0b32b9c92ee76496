//! Instructions of the game store, and the decoder of their argument bytes.
pub mod initialize_store;
pub mod set_treasury;
pub mod set_platform_fee;
pub mod set_default_referral;
pub mod set_max_referral;
pub mod set_store_actor;
pub mod add_authorized_program;
pub mod update_authorized_program;
pub mod add_payment_token;
pub mod update_payment_token;
pub mod buy_game;
pub mod init_game_store_config;
pub mod set_game_store_active;
pub mod set_game_payment_option;
pub mod remove_game_payment_option;
pub mod set_discount;
pub mod clear_discount;
pub mod set_referral_bps;
pub mod views;
pub mod withdraw_sol;
pub mod set_governance;
pub mod initialize;
pub mod set_price;
pub mod set_affiliate;
pub mod set_subscription;
pub mod withdraw;
pub mod add_authorized_registry_program;
pub mod add_authorized_source_program;
pub mod update_authorized_registry_program;
pub mod update_authorized_source_program;

use vstd::prelude::*;
use crate::address::Address;
use crate::le::{le_i64, le_u16, le_u64, i64_from_le, u16_from_le, u64_from_le};
use crate::store::errors::ProgramError;

verus! {

/// What a reader leaves behind: the value and the offset after it, or
/// `None` where the bytes do not hold one.
pub open spec fn spec_read_u8(data: Seq<u8>, off: int) -> Option<(u8, int)> {
    if 0 <= off && off + 1 <= data.len() {
        Some((data[off], off + 1))
    } else {
        None
    }
}

pub open spec fn spec_read_bool(data: Seq<u8>, off: int) -> Option<(bool, int)> {
    if 0 <= off && off + 1 <= data.len() {
        Some((data[off] != 0, off + 1))
    } else {
        None
    }
}

pub open spec fn spec_read_u16(data: Seq<u8>, off: int) -> Option<(u16, int)> {
    if 0 <= off && off + 2 <= data.len() {
        Some((le_u16(data.subrange(off, off + 2)) as u16, off + 2))
    } else {
        None
    }
}

pub open spec fn spec_read_u64(data: Seq<u8>, off: int) -> Option<(u64, int)> {
    if 0 <= off && off + 8 <= data.len() {
        Some((le_u64(data.subrange(off, off + 8)) as u64, off + 8))
    } else {
        None
    }
}

pub open spec fn spec_read_i64(data: Seq<u8>, off: int) -> Option<(i64, int)> {
    if 0 <= off && off + 8 <= data.len() {
        Some((le_i64(data.subrange(off, off + 8)) as i64, off + 8))
    } else {
        None
    }
}

pub open spec fn spec_read_address(data: Seq<u8>, off: int) -> Option<(Seq<u8>, int)> {
    if 0 <= off && off + 32 <= data.len() {
        Some((data.subrange(off, off + 32), off + 32))
    } else {
        None
    }
}

/// An optional value: a tag byte 0 (absent) or 1 (present, followed by the
/// value); any other tag is invalid.
pub open spec fn spec_read_option<T>(
    data: Seq<u8>,
    off: int,
    inner: spec_fn(Seq<u8>, int) -> Option<(T, int)>,
) -> Option<(Option<T>, int)> {
    match spec_read_u8(data, off) {
        None => None,
        Some((tag, next)) => if tag == 0 {
            Some((None, next))
        } else if tag == 1 {
            match inner(data, next) {
                None => None,
                Some((v, after)) => Some((Some(v), after)),
            }
        } else {
            None
        },
    }
}

/// The offset that a failed optional read leaves: past the tag where the tag
/// byte was there, else where it was.
pub open spec fn spec_option_fail_offset(data: Seq<u8>, off: int) -> int {
    if 0 <= off && off + 1 <= data.len() {
        off + 1
    } else {
        off
    }
}

/// Reads one byte as a flag: any byte but 0 is `true`.
pub fn read_bool(data: &[u8], offset: &mut usize) -> (r: Result<bool, ProgramError>)
    ensures
        match spec_read_bool(data@, *old(offset) as int) {
            Some((v, next)) => r == Ok::<bool, ProgramError>(v) && *final(offset) == next,
            None => r == Err::<bool, ProgramError>(ProgramError::InvalidInstructionData)
                && *final(offset) == *old(offset),
        },
{
    if *offset >= data.len() {
        return Err(ProgramError::InvalidInstructionData);
    }
    let value = data[*offset] != 0;
    *offset = *offset + 1;
    Ok(value)
}

/// Reads one byte.
pub fn read_u8(data: &[u8], offset: &mut usize) -> (r: Result<u8, ProgramError>)
    ensures
        match spec_read_u8(data@, *old(offset) as int) {
            Some((v, next)) => r == Ok::<u8, ProgramError>(v) && *final(offset) == next,
            None => r == Err::<u8, ProgramError>(ProgramError::InvalidInstructionData)
                && *final(offset) == *old(offset),
        },
{
    if *offset >= data.len() {
        return Err(ProgramError::InvalidInstructionData);
    }
    let value = data[*offset];
    *offset = *offset + 1;
    Ok(value)
}

/// Reads a little-endian `u16`.
pub fn read_u16(data: &[u8], offset: &mut usize) -> (r: Result<u16, ProgramError>)
    ensures
        match spec_read_u16(data@, *old(offset) as int) {
            Some((v, next)) => r == Ok::<u16, ProgramError>(v) && *final(offset) == next,
            None => r == Err::<u16, ProgramError>(ProgramError::InvalidInstructionData)
                && *final(offset) == *old(offset),
        },
{
    if *offset >= data.len() || data.len() - *offset < 2 {
        return Err(ProgramError::InvalidInstructionData);
    }
    let value = u16_from_le(data[*offset], data[*offset + 1]);
    proof {
        assert(data@.subrange(*offset as int, *offset + 2) =~= seq![data@[*offset as int], data@[*offset + 1]]);
    }
    *offset = *offset + 2;
    Ok(value)
}

/// Reads a little-endian `i64`.
pub fn read_i64(data: &[u8], offset: &mut usize) -> (r: Result<i64, ProgramError>)
    ensures
        match spec_read_i64(data@, *old(offset) as int) {
            Some((v, next)) => r == Ok::<i64, ProgramError>(v) && *final(offset) == next,
            None => r == Err::<i64, ProgramError>(ProgramError::InvalidInstructionData)
                && *final(offset) == *old(offset),
        },
{
    if *offset >= data.len() || data.len() - *offset < 8 {
        return Err(ProgramError::InvalidInstructionData);
    }
    let value = i64_from_le(data, *offset);
    *offset = *offset + 8;
    Ok(value)
}

/// Reads a little-endian `u64`.
pub fn read_u64(data: &[u8], offset: &mut usize) -> (r: Result<u64, ProgramError>)
    ensures
        match spec_read_u64(data@, *old(offset) as int) {
            Some((v, next)) => r == Ok::<u64, ProgramError>(v) && *final(offset) == next,
            None => r == Err::<u64, ProgramError>(ProgramError::InvalidInstructionData)
                && *final(offset) == *old(offset),
        },
{
    if *offset >= data.len() || data.len() - *offset < 8 {
        return Err(ProgramError::InvalidInstructionData);
    }
    let value = u64_from_le(data, *offset);
    *offset = *offset + 8;
    Ok(value)
}

/// Reads a 32-byte address.
pub fn read_address(data: &[u8], offset: &mut usize) -> (r: Result<Address, ProgramError>)
    ensures
        match spec_read_address(data@, *old(offset) as int) {
            Some((v, next)) => r matches Ok(a) && a@ == v && *final(offset) == next,
            None => r == Err::<Address, ProgramError>(ProgramError::InvalidInstructionData)
                && *final(offset) == *old(offset),
        },
{
    if *offset >= data.len() || data.len() - *offset < 32 {
        return Err(ProgramError::InvalidInstructionData);
    }
    let start = *offset;
    let mut bytes = [0u8; 32];
    let mut i: usize = 0;
    while i < 32
        invariant
            i <= 32,
            start + 32 <= data.len(),
            bytes@.len() == 32,
            forall|j: int| 0 <= j < i ==> bytes@[j] == data@[start + j],
        decreases 32 - i,
    {
        bytes[i] = data[start + i];
        i = i + 1;
    }
    assert(bytes@ =~= data@.subrange(start as int, start + 32));
    *offset = start + 32;
    Ok(Address { bytes })
}

/// Reads an optional byte: a tag byte 0 (absent) or 1 (present).
pub fn read_option_u8(data: &[u8], offset: &mut usize) -> (r: Result<Option<u8>, ProgramError>)
    ensures
        match spec_read_option(data@, *old(offset) as int, |d: Seq<u8>, o: int| spec_read_u8(d, o)) {
            Some((v, next)) => r == Ok::<Option<u8>, ProgramError>(v) && *final(offset) == next,
            None => r == Err::<Option<u8>, ProgramError>(ProgramError::InvalidInstructionData)
                && *final(offset) == spec_option_fail_offset(data@, *old(offset) as int),
        },
{
    let tag = read_u8(data, offset)?;
    if tag == 0 {
        Ok(None)
    } else if tag == 1 {
        let v = read_u8(data, offset)?;
        Ok(Some(v))
    } else {
        Err(ProgramError::InvalidInstructionData)
    }
}

/// Reads an optional little-endian `u16`: a tag byte 0 (absent) or 1 (present).
pub fn read_option_u16(data: &[u8], offset: &mut usize) -> (r: Result<Option<u16>, ProgramError>)
    ensures
        match spec_read_option(data@, *old(offset) as int, |d: Seq<u8>, o: int| spec_read_u16(d, o)) {
            Some((v, next)) => r == Ok::<Option<u16>, ProgramError>(v) && *final(offset) == next,
            None => r == Err::<Option<u16>, ProgramError>(ProgramError::InvalidInstructionData)
                && *final(offset) == spec_option_fail_offset(data@, *old(offset) as int),
        },
{
    let tag = read_u8(data, offset)?;
    if tag == 0 {
        Ok(None)
    } else if tag == 1 {
        let v = read_u16(data, offset)?;
        Ok(Some(v))
    } else {
        Err(ProgramError::InvalidInstructionData)
    }
}

/// Reads an optional little-endian `i64`: a tag byte 0 (absent) or 1 (present).
pub fn read_option_i64(data: &[u8], offset: &mut usize) -> (r: Result<Option<i64>, ProgramError>)
    ensures
        match spec_read_option(data@, *old(offset) as int, |d: Seq<u8>, o: int| spec_read_i64(d, o)) {
            Some((v, next)) => r == Ok::<Option<i64>, ProgramError>(v) && *final(offset) == next,
            None => r == Err::<Option<i64>, ProgramError>(ProgramError::InvalidInstructionData)
                && *final(offset) == spec_option_fail_offset(data@, *old(offset) as int),
        },
{
    let tag = read_u8(data, offset)?;
    if tag == 0 {
        Ok(None)
    } else if tag == 1 {
        let v = read_i64(data, offset)?;
        Ok(Some(v))
    } else {
        Err(ProgramError::InvalidInstructionData)
    }
}

/// Reads an optional address: a tag byte 0 (absent) or 1 (present).
pub fn read_option_address(data: &[u8], offset: &mut usize) -> (r: Result<Option<Address>, ProgramError>)
    ensures
        match spec_read_option(data@, *old(offset) as int, |d: Seq<u8>, o: int| spec_read_address(d, o)) {
            Some((v, next)) => (match v {
                None => r matches Ok(None),
                Some(a) => r matches Ok(Some(x)) && x@ == a,
            }) && *final(offset) == next,
            None => r == Err::<Option<Address>, ProgramError>(ProgramError::InvalidInstructionData)
                && *final(offset) == spec_option_fail_offset(data@, *old(offset) as int),
        },
{
    let tag = read_u8(data, offset)?;
    if tag == 0 {
        Ok(None)
    } else if tag == 1 {
        let v = read_address(data, offset)?;
        Ok(Some(v))
    } else {
        Err(ProgramError::InvalidInstructionData)
    }
}

} // verus!
