use sevenz::error::Error;
use sevenz::utf16::{read_utf16_name, write_utf16_name};

#[test]
fn name_round_trip() {
    let name: Vec<u16> = "a.txt".encode_utf16().collect();
    let bytes = write_utf16_name(&name);
    assert_eq!(bytes.len(), 2 * name.len() + 2);
    assert_eq!(&bytes[0..2], &[b'a', 0]);
    assert_eq!(&bytes[bytes.len() - 2..], &[0, 0]);
    let (back, used) = read_utf16_name(&bytes).unwrap();
    assert_eq!(back, name);
    assert_eq!(used, bytes.len());
}

#[test]
fn empty_name_is_just_the_terminator() {
    let bytes = write_utf16_name(&vec![]);
    assert_eq!(bytes, vec![0, 0]);
    let (back, used) = read_utf16_name(&bytes).unwrap();
    assert!(back.is_empty());
    assert_eq!(used, 2);
}

#[test]
fn reading_stops_at_the_terminator() {
    let mut bytes = write_utf16_name(&vec![0x64, 0x2F]);
    bytes.extend_from_slice(&[0x78, 0x00]);
    let (back, used) = read_utf16_name(&bytes).unwrap();
    assert_eq!(back, vec![0x64, 0x2F]);
    assert_eq!(used, 6);
}

#[test]
fn missing_terminator_is_truncation() {
    assert_eq!(read_utf16_name(&[b'a', 0]), Err(Error::Truncated));
    assert_eq!(read_utf16_name(&[b'a']), Err(Error::Truncated));
    assert_eq!(read_utf16_name(&[]), Err(Error::Truncated));
}
