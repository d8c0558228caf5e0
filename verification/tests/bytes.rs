use x86_64_relax::bytes::{
    byte_before, get_byte, le_bytes_of_i32, pattern_after, pattern_at, pattern_before, write_at,
};

#[test]
fn bytes_are_found_where_they_stand() {
    let bytes = [1u8, 2, 3, 4, 5];
    assert_eq!(get_byte(&bytes, 0), Some(1));
    assert_eq!(get_byte(&bytes, 4), Some(5));
    assert_eq!(get_byte(&bytes, 5), None);
    assert_eq!(get_byte(&bytes, usize::MAX), None);
    assert_eq!(byte_before(&bytes, 5, 1), Some(5));
    assert_eq!(byte_before(&bytes, 5, 5), Some(1));
    assert_eq!(byte_before(&bytes, 5, 6), None);
    assert_eq!(byte_before(&bytes, 5, 0), None);
    assert_eq!(byte_before(&bytes, 6, 1), None);
    assert_eq!(byte_before(&bytes, u64::MAX, 1), None);
    assert_eq!(byte_before(&bytes, 0, u64::MAX), None);
}

#[test]
fn patterns_are_found_where_they_stand() {
    let bytes = [1u8, 2, 3, 4, 5];
    assert!(pattern_at(&bytes, 0, &[1, 2]));
    assert!(pattern_at(&bytes, 3, &[4, 5]));
    assert!(pattern_at(&bytes, 0, &bytes));
    assert!(!pattern_at(&bytes, 1, &[1, 2]));
    assert!(!pattern_at(&bytes, 4, &[5, 6]));
    assert!(!pattern_at(&bytes, 0, &[1, 2, 3, 4, 5, 6]));
    assert!(!pattern_at(&bytes, usize::MAX, &[1]));
    assert!(pattern_at(&bytes, 5, &[]));
    assert!(!pattern_at(&bytes, 6, &[]));
    assert!(pattern_before(&bytes, 3, 2, &[2, 3]));
    assert!(pattern_before(&bytes, 5, 5, &bytes));
    assert!(!pattern_before(&bytes, 1, 2, &[1]));
    assert!(!pattern_before(&bytes, u64::MAX, 2, &[1]));
    assert!(pattern_after(&bytes, 1, 2, &[4, 5]));
    assert!(!pattern_after(&bytes, 1, 3, &[5, 6]));
    assert!(!pattern_after(&bytes, u64::MAX, 1, &[1]));
    assert!(!pattern_after(&bytes, u64::MAX - 1, 1, &[]));
    assert!(!pattern_after(&bytes, 1, u64::MAX, &[2]));
}

#[test]
fn bytes_are_written_where_asked() {
    let mut bytes = [1u8, 2, 3, 4, 5];
    write_at(&mut bytes, 1, &[9, 8]);
    assert_eq!(bytes, [1, 9, 8, 4, 5]);
    write_at(&mut bytes, 3, &[7, 6]);
    assert_eq!(bytes, [1, 9, 8, 7, 6]);
    write_at(&mut bytes, 5, &[]);
    assert_eq!(bytes, [1, 9, 8, 7, 6]);
    write_at(&mut bytes, 0, &[0, 0, 0, 0, 0]);
    assert_eq!(bytes, [0; 5]);
}

#[test]
fn signed_numbers_are_written_lowest_byte_first() {
    for value in [0i32, 1, -1, 0x1234_5678, -0x1234_5678, i32::MAX, i32::MIN, 255, 256, -256, 0x3015] {
        assert_eq!(le_bytes_of_i32(value), value.to_le_bytes());
    }
    assert_eq!(le_bytes_of_i32(0x3015), [0x15, 0x30, 0, 0]);
    assert_eq!(le_bytes_of_i32(-12), [0xf4, 0xff, 0xff, 0xff]);
}
