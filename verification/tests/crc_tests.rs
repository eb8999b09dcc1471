use sevenz::crc32::crc32;

#[test]
fn crc_of_empty_is_zero() {
    assert_eq!(crc32(&[]), 0);
}

#[test]
fn crc_check_value() {
    // The standard CRC-32 check value over the digits 1..9.
    assert_eq!(crc32(b"123456789"), 0xCBF43926);
}

#[test]
fn crc_single_byte() {
    // CRC-32 of one zero byte.
    assert_eq!(crc32(&[0u8]), 0xD202EF8D);
}

#[test]
fn crc_differs_on_flip() {
    let a = crc32(b"hello world");
    let b = crc32(b"hello worle");
    assert_ne!(a, b);
}
