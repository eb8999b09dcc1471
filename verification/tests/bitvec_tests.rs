use sevenz::bitvec::{read_all_or_bits, read_bits, write_bits};
use sevenz::error::Error;

#[test]
fn pack_and_unpack_round_trip() {
    let bits = vec![true, false, true, true, false, false, true, false, true, true];
    let bytes = write_bits(&bits);
    assert_eq!(bytes.len(), 2);
    // MSB-first: 1011 0010, then 11 and six padding zeros.
    assert_eq!(bytes, vec![0xB2, 0xC0]);
    let back = read_bits(&bytes, bits.len()).unwrap();
    assert_eq!(back, bits);
}

#[test]
fn whole_byte_vector() {
    let bits = vec![true; 8];
    let bytes = write_bits(&bits);
    assert_eq!(bytes, vec![0xFF]);
    assert_eq!(read_bits(&bytes, 8).unwrap(), bits);
}

#[test]
fn empty_vector_takes_no_bytes() {
    let bits: Vec<bool> = vec![];
    assert_eq!(write_bits(&bits), Vec::<u8>::new());
    assert_eq!(read_bits(&[], 0).unwrap(), bits);
}

#[test]
fn short_input_is_truncation() {
    assert_eq!(read_bits(&[0xFF], 9), Err(Error::Truncated));
}

#[test]
fn all_defined_marker() {
    let (bits, used) = read_all_or_bits(&[1], 5).unwrap();
    assert_eq!(used, 1);
    assert_eq!(bits, vec![true; 5]);

    let (bits, used) = read_all_or_bits(&[0, 0xB0], 4).unwrap();
    assert_eq!(used, 2);
    assert_eq!(bits, vec![true, false, true, true]);

    assert_eq!(read_all_or_bits(&[], 3), Err(Error::Truncated));
    assert_eq!(read_all_or_bits(&[0], 3), Err(Error::Truncated));
}
