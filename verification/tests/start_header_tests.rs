use sevenz::crc32::crc32;
use sevenz::error::{ChecksumKind, Error};
use sevenz::start_header::{check_next_header, read_start_header, write_start_header, StartHeader};

fn sample_header() -> StartHeader {
    StartHeader { next_header_offset: 4, next_header_size: 100, next_header_crc: 0xDEADBEEF }
}

#[test]
fn start_header_round_trip() {
    let h = sample_header();
    let bytes = write_start_header(&h);
    assert_eq!(bytes.len(), 32);
    assert_eq!(&bytes[0..6], &[b'7', b'z', 0xBC, 0xAF, 0x27, 0x1C]);
    assert_eq!(&bytes[6..8], &[0, 4]);
    assert_eq!(read_start_header(&bytes), Ok(h));
}

#[test]
fn start_header_crc_covers_tail() {
    let bytes = write_start_header(&sample_header());
    let stored = u32::from_le_bytes([bytes[8], bytes[9], bytes[10], bytes[11]]);
    assert_eq!(stored, crc32(&bytes[12..32]));
}

#[test]
fn truncated_archive_is_refused() {
    let bytes = write_start_header(&sample_header());
    assert_eq!(read_start_header(&bytes[..30]), Err(Error::Truncated));
    assert_eq!(read_start_header(&bytes[..2]), Err(Error::Truncated));
    assert_eq!(read_start_header(&[]), Err(Error::Truncated));
}

#[test]
fn bad_magic_is_refused() {
    let mut bytes = write_start_header(&sample_header());
    bytes[0] = b'8';
    assert_eq!(read_start_header(&bytes), Err(Error::BadSignature));
}

#[test]
fn future_version_is_refused() {
    let mut bytes = write_start_header(&sample_header());
    bytes[6] = 1;
    assert_eq!(read_start_header(&bytes), Err(Error::UnsupportedVersion(1, 4)));
}

#[test]
fn corrupted_tail_fails_the_start_header_crc() {
    let mut bytes = write_start_header(&sample_header());
    bytes[13] ^= 0x01;
    assert_eq!(
        read_start_header(&bytes),
        Err(Error::ChecksumMismatch(ChecksumKind::StartHeader))
    );
}

#[test]
fn flipped_header_block_byte_fails_the_next_header_crc() {
    let mut block = b"header block bytes".to_vec();
    let expected = crc32(&block);
    assert_eq!(check_next_header(&block, expected), Ok(()));
    block[3] ^= 0x40;
    assert_eq!(
        check_next_header(&block, expected),
        Err(Error::ChecksumMismatch(ChecksumKind::NextHeader))
    );
}
