use game_store::le::{i64_from_le, i64_to_le, u16_from_le, u16_to_le, u64_from_le, u64_to_le, u64_as_i64, i64_as_u64};
use game_store::store::errors::ProgramError;
use game_store::store::instructions::{
    read_address, read_bool, read_i64, read_option_address, read_option_i64, read_option_u16,
    read_option_u8, read_u16, read_u64, read_u8,
};
use game_store::store::state::{OptionI64, OptionU16};

#[test]
fn u16_le_matches_std() {
    for v in [0u16, 1, 255, 256, 0x1234, 0xFFFF] {
        assert_eq!(u16_to_le(v), v.to_le_bytes());
        let b = v.to_le_bytes();
        assert_eq!(u16_from_le(b[0], b[1]), v);
    }
}

#[test]
fn u64_le_matches_std() {
    for v in [0u64, 1, 0x0102_0304_0506_0708, u64::MAX, 1 << 63] {
        assert_eq!(u64_to_le(v), v.to_le_bytes());
        assert_eq!(u64_from_le(&v.to_le_bytes(), 0), v);
    }
    let data = [9u8, 8, 1, 0, 0, 0, 0, 0, 0, 0];
    assert_eq!(u64_from_le(&data, 2), 1);
}

#[test]
fn i64_le_matches_std() {
    for v in [0i64, 1, -1, i64::MIN, i64::MAX, -1234567890123, 987654321] {
        assert_eq!(i64_to_le(v), v.to_le_bytes());
        assert_eq!(i64_from_le(&v.to_le_bytes(), 0), v);
    }
    assert_eq!(u64_as_i64(u64::MAX), -1);
    assert_eq!(u64_as_i64(1 << 63), i64::MIN);
    assert_eq!(i64_as_u64(-1), u64::MAX);
    assert_eq!(i64_as_u64(i64::MIN), 1 << 63);
}

#[test]
fn option_u16_set_then_get() {
    let mut o = OptionU16::none();
    assert_eq!(o.get(), None);
    o.set(Some(513));
    assert_eq!(o.get(), Some(513));
    o.set(Some(0));
    assert_eq!(o.get(), Some(0));
    o.set(None);
    assert_eq!(o.get(), None);
    assert_eq!(OptionU16::from(Some(10_000)).get(), Some(10_000));
    assert_eq!(OptionU16::from(None).get(), None);
}

#[test]
fn option_i64_set_then_get() {
    let mut o = OptionI64::none();
    assert_eq!(o.get(), None);
    o.set(Some(-5));
    assert_eq!(o.get(), Some(-5));
    o.set(Some(i64::MAX));
    assert_eq!(o.get(), Some(i64::MAX));
    o.set(None);
    assert_eq!(o.get(), None);
    assert_eq!(OptionI64::from(Some(i64::MIN)).get(), Some(i64::MIN));
}

#[test]
fn readers_advance_and_fail_without_moving() {
    let data = [1u8, 7, 0x34, 0x12, 2];
    let mut off = 0usize;
    assert_eq!(read_bool(&data, &mut off), Ok(true));
    assert_eq!(off, 1);
    assert_eq!(read_u8(&data, &mut off), Ok(7));
    assert_eq!(read_u16(&data, &mut off), Ok(0x1234));
    assert_eq!(off, 4);
    assert_eq!(read_u16(&data, &mut off), Err(ProgramError::InvalidInstructionData));
    assert_eq!(off, 4);
    assert_eq!(read_bool(&data, &mut off), Ok(true));
    assert_eq!(read_u8(&data, &mut off), Err(ProgramError::InvalidInstructionData));
    assert_eq!(off, 5);
}

#[test]
fn read_u64_and_i64() {
    let mut data = Vec::new();
    data.extend_from_slice(&300u64.to_le_bytes());
    data.extend_from_slice(&(-7i64).to_le_bytes());
    let mut off = 0usize;
    assert_eq!(read_u64(&data, &mut off), Ok(300));
    assert_eq!(read_i64(&data, &mut off), Ok(-7));
    assert_eq!(off, 16);
    assert_eq!(read_i64(&data, &mut off), Err(ProgramError::InvalidInstructionData));
    let mut far = 100usize;
    assert_eq!(read_u64(&data, &mut far), Err(ProgramError::InvalidInstructionData));
    assert_eq!(far, 100);
}

#[test]
fn read_address_takes_32_bytes() {
    let mut data = vec![0u8; 33];
    for (i, b) in data.iter_mut().enumerate() {
        *b = i as u8;
    }
    let mut off = 1usize;
    let a = read_address(&data, &mut off).unwrap();
    assert_eq!(a.bytes[0], 1);
    assert_eq!(a.bytes[31], 32);
    assert_eq!(off, 33);
    let mut off = 2usize;
    assert_eq!(read_address(&data, &mut off).unwrap_err(), ProgramError::InvalidInstructionData);
    assert_eq!(off, 2);
}

#[test]
fn optional_readers() {
    let data = [0u8, 1, 9, 2];
    let mut off = 0usize;
    assert_eq!(read_option_u8(&data, &mut off), Ok(None));
    assert_eq!(off, 1);
    assert_eq!(read_option_u8(&data, &mut off), Ok(Some(9)));
    assert_eq!(off, 3);
    assert_eq!(read_option_u8(&data, &mut off), Err(ProgramError::InvalidInstructionData));
    assert_eq!(off, 4);

    let data = [1u8, 0x10, 0x27];
    let mut off = 0usize;
    assert_eq!(read_option_u16(&data, &mut off), Ok(Some(10_000)));
    assert_eq!(off, 3);

    let data = [1u8, 0x10];
    let mut off = 0usize;
    assert_eq!(read_option_u16(&data, &mut off), Err(ProgramError::InvalidInstructionData));
    assert_eq!(off, 1);

    let mut data = vec![1u8];
    data.extend_from_slice(&(-3i64).to_le_bytes());
    let mut off = 0usize;
    assert_eq!(read_option_i64(&data, &mut off), Ok(Some(-3)));

    let mut data = vec![1u8];
    data.extend_from_slice(&[5u8; 32]);
    let mut off = 0usize;
    let got = read_option_address(&data, &mut off).unwrap().unwrap();
    assert_eq!(got.bytes, [5u8; 32]);
    let mut off = 0usize;
    assert!(read_option_address(&[0u8], &mut off).unwrap().is_none());
}
