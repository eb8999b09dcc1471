use sevenz::error::Error;
use sevenz::varint::{read_varint, write_varint};

#[test]
fn small_values_take_one_byte() {
    assert_eq!(write_varint(0), vec![0x00]);
    assert_eq!(write_varint(0x27), vec![0x27]);
    assert_eq!(write_varint(0x7F), vec![0x7F]);
}

#[test]
fn known_encodings() {
    assert_eq!(write_varint(0x80), vec![0x80, 0x80]);
    assert_eq!(write_varint(0x3FFF), vec![0xBF, 0xFF]);
    assert_eq!(write_varint(0x4000), vec![0xC0, 0x00, 0x40]);
    assert_eq!(write_varint(u64::MAX), vec![0xFF; 9]);
}

#[test]
fn round_trips_at_the_boundaries() {
    let values = [
        0u64,
        0x7F,
        0x80,
        0x3FFF,
        0x4000,
        0x1FFFFF,
        0x200000,
        0xFFFFFFF,
        0x10000000,
        0x7FFFFFFFF,
        0x800000000,
        0x3FFFFFFFFFF,
        0x40000000000,
        0x1FFFFFFFFFFFF,
        0x2000000000000,
        0xFFFFFFFFFFFFFF,
        0x100000000000000,
        u64::MAX,
    ];
    for &v in values.iter() {
        let mut bytes = write_varint(v);
        bytes.push(0xAB);
        let (back, used) = read_varint(&bytes).unwrap();
        assert_eq!(back, v);
        assert_eq!(used, bytes.len() - 1);
    }
}

#[test]
fn reading_stops_after_one_number() {
    assert_eq!(read_varint(&[0x05, 0xAA, 0xBB]), Ok((5, 1)));
}

#[test]
fn truncated_input_is_refused() {
    assert_eq!(read_varint(&[]), Err(Error::Truncated));
    assert_eq!(read_varint(&[0x80]), Err(Error::Truncated));
    assert_eq!(read_varint(&[0xFF, 1, 2, 3]), Err(Error::Truncated));
}
