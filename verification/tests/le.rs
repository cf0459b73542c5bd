use zombie_army::le::read_u64_le;
use zombie_army::le::write_u64_le;

#[test]
fn write_u64_le_puts_the_low_byte_first() {
    assert_eq!(write_u64_le(0), vec![0u8; 8]);
    assert_eq!(write_u64_le(1), vec![1u8, 0, 0, 0, 0, 0, 0, 0]);
    assert_eq!(write_u64_le(0x0102_0304_0506_0708), vec![8u8, 7, 6, 5, 4, 3, 2, 1]);
    assert_eq!(write_u64_le(u64::MAX), vec![255u8; 8]);
    assert_eq!(write_u64_le(1 << 56), vec![0u8, 0, 0, 0, 0, 0, 0, 1]);
}

#[test]
fn read_u64_le_sums_the_bytes_by_place() {
    assert_eq!(read_u64_le(&[0u8; 8]), 0);
    assert_eq!(read_u64_le(&[1u8, 0, 0, 0, 0, 0, 0, 0]), 1);
    assert_eq!(read_u64_le(&[0u8, 1, 0, 0, 0, 0, 0, 0]), 256);
    assert_eq!(read_u64_le(&[8u8, 7, 6, 5, 4, 3, 2, 1]), 0x0102_0304_0506_0708);
    assert_eq!(read_u64_le(&[255u8; 8]), u64::MAX);
}

#[test]
fn read_and_write_u64_le_undo_each_other() {
    for value in [0u64, 1, 255, 256, 0xdead_beef, 0x1000_0000_0000_0000, u64::MAX - 1, u64::MAX] {
        assert_eq!(read_u64_le(&write_u64_le(value)), value);
    }
    let bytes = [0x10u8, 0x32, 0x54, 0x76, 0x98, 0xba, 0xdc, 0xfe];
    assert_eq!(write_u64_le(read_u64_le(&bytes)), bytes.to_vec());
}
