use scope::bytes::{
    read_i32, read_i64, read_u32, read_u64, write_i32, write_i64, write_u32, write_u64,
};
use scope::pubkey::{read_key, Pubkey};
use scope::utils::hours_since_timestamp;

#[test]
fn numbers_are_read_least_significant_byte_first() {
    let data = [0xff, 1, 2, 3, 4, 5, 6, 7, 8, 0xff];
    assert_eq!(read_u32(&data, 1), 0x0403_0201);
    assert_eq!(read_u64(&data, 1), 0x0807_0605_0403_0201);
    assert_eq!(read_u32(&data, 6), u32::from_le_bytes([6, 7, 8, 0xff]));
    assert_eq!(read_i32(&data, 6), i32::from_le_bytes([6, 7, 8, 0xff]));
    assert_eq!(read_i64(&data, 2), i64::from_le_bytes([2, 3, 4, 5, 6, 7, 8, 0xff]));
    assert_eq!(read_i64(&data, 0), i64::from_le_bytes([0xff, 1, 2, 3, 4, 5, 6, 7]));
}

#[test]
fn extreme_numbers_go_through_bytes() {
    for v in [0u64, 1, 255, 256, u32::MAX as u64, 1 << 32, 1 << 63, u64::MAX] {
        let mut data = vec![0x55u8; 12];
        write_u64(&mut data, 3, v);
        assert_eq!(&data[3..11], &v.to_le_bytes());
        assert_eq!(read_u64(&data, 3), v);
        assert_eq!((data[0], data[2], data[11]), (0x55, 0x55, 0x55));
    }
    for v in [0i64, 1, -1, i64::MIN, i64::MAX, -256, 1 << 40] {
        let mut data = vec![0x55u8; 8];
        write_i64(&mut data, 0, v);
        assert_eq!(&data[..], &v.to_le_bytes());
        assert_eq!(read_i64(&data, 0), v);
    }
    for v in [0u32, 1, 0x8000_0000, u32::MAX, 0xa1b2_c3d4] {
        let mut data = vec![0x55u8; 6];
        write_u32(&mut data, 2, v);
        assert_eq!(&data[2..6], &v.to_le_bytes());
        assert_eq!(read_u32(&data, 2), v);
        assert_eq!((data[0], data[1]), (0x55, 0x55));
    }
    for v in [0i32, 1, -1, i32::MIN, i32::MAX, -8] {
        let mut data = vec![0x55u8; 4];
        write_i32(&mut data, 0, v);
        assert_eq!(&data[..], &v.to_le_bytes());
        assert_eq!(read_i32(&data, 0), v);
    }
}

#[test]
fn address_is_read_from_its_place() {
    let data: Vec<u8> = (0u8..40).collect();
    let key = read_key(&data, 5);
    let expected: Vec<u8> = (5u8..37).collect();
    assert_eq!(key.to_bytes().to_vec(), expected);
    assert!(!key.is_default());
    assert!(key.equals(&Pubkey::new_from_array(key.to_bytes())));
    assert!(!key.equals(&read_key(&data, 6)));
}

#[test]
fn zero_address_stands_for_no_account() {
    assert!(Pubkey::default().is_default());
    assert_eq!(Pubkey::default().to_bytes(), [0u8; 32]);
    let mut bytes = [0u8; 32];
    bytes[31] = 1;
    assert!(!Pubkey::new_from_array(bytes).is_default());
    assert!(!Pubkey::new_from_array(bytes).equals(&Pubkey::default()));
}

#[test]
fn hours_are_whole_hours_since_the_timestamp() {
    assert_eq!(hours_since_timestamp(3_599, 0), 0);
    assert_eq!(hours_since_timestamp(3_600, 0), 1);
    assert_eq!(hours_since_timestamp(7_199, 0), 1);
    assert_eq!(hours_since_timestamp(10_000, 2_800), 2);
    assert_eq!(hours_since_timestamp(5, 5), 0);
    assert_eq!(hours_since_timestamp(5, 6), 0);
    assert_eq!(hours_since_timestamp(0, u64::MAX), 0);
    assert_eq!(hours_since_timestamp(u64::MAX, 0), u64::MAX / 3_600);
}
