use cpuid::bit_helper::{read_bit, read_bits_in_range, write_bit, write_bits_in_range};
use cpuid::common::Error;

#[test]
fn test_read_bits_in_range() {
    assert_eq!(read_bits_in_range(0x1234_5678, 15, 8), Ok(0x56));
    assert_eq!(read_bits_in_range(0x1234_5678, 31, 0), Ok(0x1234_5678));
    assert_eq!(read_bits_in_range(0x1234_5678, 31, 28), Ok(0x1));
    assert_eq!(read_bits_in_range(0x1234_5678, 3, 3), Ok(1));
    assert_eq!(read_bits_in_range(0x1234_5678, 0, 0), Ok(0));
    assert_eq!(read_bits_in_range(0xe0, 7, 5), Ok(7));
}

#[test]
fn test_read_bits_in_no_range() {
    assert_eq!(read_bits_in_range(0x1234_5678, 32, 0), Err(Error::InvalidParameters));
    assert_eq!(read_bits_in_range(0x1234_5678, 7, 8), Err(Error::InvalidParameters));
    assert_eq!(read_bits_in_range(0x1234_5678, u32::MAX, 0), Err(Error::InvalidParameters));
}

#[test]
fn test_write_bits_in_range() {
    assert_eq!(write_bits_in_range(0, 15, 8, 0xab), Ok(0xab00));
    assert_eq!(write_bits_in_range(0xffff_ffff, 15, 8, 0), Ok(0xffff_00ff));
    assert_eq!(write_bits_in_range(0x1234_5678, 31, 24, 0xff), Ok(0xff34_5678));
    assert_eq!(write_bits_in_range(0x1234_5678, 31, 0, 0x9abc_def0), Ok(0x9abc_def0));
    assert_eq!(write_bits_in_range(0x1234_5678, 0, 0, 1), Ok(0x1234_5679));
    assert_eq!(write_bits_in_range(0, 25, 14, 0xfff), Ok(0x03ff_c000));
}

#[test]
fn test_write_bits_that_do_not_fit() {
    assert_eq!(write_bits_in_range(0, 15, 8, 0x100), Err(Error::InvalidParameters));
    assert_eq!(write_bits_in_range(0, 0, 0, 2), Err(Error::InvalidParameters));
    assert_eq!(write_bits_in_range(0, 31, 26, 64), Err(Error::InvalidParameters));
    assert_eq!(write_bits_in_range(0, 32, 0, 0), Err(Error::InvalidParameters));
    assert_eq!(write_bits_in_range(0, 3, 4, 0), Err(Error::InvalidParameters));
}

#[test]
fn test_read_after_write() {
    for (msb, lsb, value) in [(31, 24, 0xa5u32), (7, 0, 0xff), (25, 14, 0x801), (4, 0, 0x1f), (31, 31, 1)] {
        for reg in [0u32, u32::MAX, 0x1234_5678] {
            let written = write_bits_in_range(reg, msb, lsb, value).unwrap();
            assert_eq!(read_bits_in_range(written, msb, lsb), Ok(value));
            let cleared = write_bits_in_range(written, msb, lsb, 0).unwrap();
            assert_eq!(cleared, write_bits_in_range(reg, msb, lsb, 0).unwrap());
        }
    }
}

#[test]
fn test_read_bit() {
    assert_eq!(read_bit(0x8000_0001, 0), Ok(true));
    assert_eq!(read_bit(0x8000_0001, 1), Ok(false));
    assert_eq!(read_bit(0x8000_0001, 31), Ok(true));
    assert_eq!(read_bit(0x8000_0001, 32), Err(Error::InvalidParameters));
}

#[test]
fn test_write_bit() {
    assert_eq!(write_bit(0, 0, true), Ok(1));
    assert_eq!(write_bit(0, 31, true), Ok(0x8000_0000));
    assert_eq!(write_bit(u32::MAX, 4, false), Ok(0xffff_ffef));
    assert_eq!(write_bit(0x10, 4, true), Ok(0x10));
    assert_eq!(write_bit(0x10, 5, false), Ok(0x10));
    assert_eq!(write_bit(0, 32, true), Err(Error::InvalidParameters));
}
