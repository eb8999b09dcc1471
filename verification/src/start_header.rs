//! The 32-byte start header at offset 0 of every archive: magic, format
//! version, a CRC over its own tail, and the location, size and CRC of
//! the header block it points at.

use vstd::prelude::*;
use vstd::bytes::lemma_auto_spec_u32_to_from_le_bytes;
use vstd::bytes::lemma_auto_spec_u64_to_from_le_bytes;
use vstd::bytes::spec_u32_from_le_bytes;
use vstd::bytes::spec_u32_to_le_bytes;
use vstd::bytes::spec_u64_from_le_bytes;
use vstd::bytes::spec_u64_to_le_bytes;
use vstd::bytes::u32_from_le_bytes;
use vstd::bytes::u32_to_le_bytes;
use vstd::bytes::u64_from_le_bytes;
use vstd::bytes::u64_to_le_bytes;
use vstd::slice::slice_subrange;
use crate::crc32::crc32;
use crate::crc32::crc32_spec;
use crate::error::ChecksumKind;
use crate::error::Error;
use crate::util::push_all;

verus! {

/// Where the header block lies (relative to byte 32), how long it is,
/// and its CRC.
#[derive(Clone, Copy, Debug, PartialEq, Eq, Structural)]
pub struct StartHeader {
    pub next_header_offset: u64,
    pub next_header_size: u64,
    pub next_header_crc: u32,
}

/// The six magic bytes `'7' 'z' BC AF 27 1C`.
pub open spec fn magic_spec() -> Seq<u8> {
    seq![0x37u8, 0x7Au8, 0xBCu8, 0xAFu8, 0x27u8, 0x1Cu8]
}

/// Bytes 12..32: the three fields the start-header CRC covers.
pub open spec fn start_header_tail(h: StartHeader) -> Seq<u8> {
    spec_u64_to_le_bytes(h.next_header_offset) + spec_u64_to_le_bytes(h.next_header_size)
        + spec_u32_to_le_bytes(h.next_header_crc)
}

/// The full 32 bytes: magic, version 0.4, the CRC of the tail, the tail.
pub open spec fn start_header_bytes(h: StartHeader) -> Seq<u8> {
    magic_spec() + seq![0u8, 4u8] + spec_u32_to_le_bytes(crc32_spec(start_header_tail(h)))
        + start_header_tail(h)
}

/// What reading a start header from `s` yields: too little input is
/// truncation, wrong magic a bad signature, a version above 0.4 is
/// refused, and the stored CRC must match the tail it covers.
pub open spec fn parse_start_header_spec(s: Seq<u8>) -> Result<StartHeader, Error> {
    if s.len() < 6 {
        Err(Error::Truncated)
    } else if s.subrange(0, 6) != magic_spec() {
        Err(Error::BadSignature)
    } else if s.len() < 32 {
        Err(Error::Truncated)
    } else if !(s[6] == 0u8 && s[7] <= 4u8) {
        Err(Error::UnsupportedVersion(s[6], s[7]))
    } else if spec_u32_from_le_bytes(s.subrange(8, 12)) != crc32_spec(s.subrange(12, 32)) {
        Err(Error::ChecksumMismatch(ChecksumKind::StartHeader))
    } else {
        Ok(
            StartHeader {
                next_header_offset: spec_u64_from_le_bytes(s.subrange(12, 20)),
                next_header_size: spec_u64_from_le_bytes(s.subrange(20, 28)),
                next_header_crc: spec_u32_from_le_bytes(s.subrange(28, 32)),
            },
        )
    }
}

/// Emit the 32 start-header bytes for `h`.
pub fn write_start_header(h: &StartHeader) -> (r: Vec<u8>)
    ensures
        r@ == start_header_bytes(*h),
        r@.len() == 32,
{
    let mut tail: Vec<u8> = Vec::new();
    let off = u64_to_le_bytes(h.next_header_offset);
    push_all(&mut tail, off.as_slice());
    let size = u64_to_le_bytes(h.next_header_size);
    push_all(&mut tail, size.as_slice());
    let crc = u32_to_le_bytes(h.next_header_crc);
    push_all(&mut tail, crc.as_slice());
    proof {
        assert(tail@ =~= start_header_tail(*h));
    }
    let tail_crc = crc32(tail.as_slice());
    let mut out: Vec<u8> = Vec::new();
    out.push(0x37u8);
    out.push(0x7Au8);
    out.push(0xBCu8);
    out.push(0xAFu8);
    out.push(0x27u8);
    out.push(0x1Cu8);
    out.push(0u8);
    out.push(4u8);
    let crc_bytes = u32_to_le_bytes(tail_crc);
    push_all(&mut out, crc_bytes.as_slice());
    push_all(&mut out, tail.as_slice());
    proof {
        assert(out@ =~= start_header_bytes(*h));
        vstd::bytes::lemma_auto_spec_u64_to_from_le_bytes();
        lemma_auto_spec_u32_to_from_le_bytes();
    }
    out
}

/// Read and validate a start header from the first bytes of an archive.
pub fn read_start_header(data: &[u8]) -> (r: Result<StartHeader, Error>)
    ensures
        r == parse_start_header_spec(data@),
{
    if data.len() < 6 {
        return Err(Error::Truncated);
    }
    let magic_ok = data[0] == 0x37u8 && data[1] == 0x7Au8 && data[2] == 0xBCu8 && data[3] == 0xAFu8
        && data[4] == 0x27u8 && data[5] == 0x1Cu8;
    proof {
        if magic_ok {
            assert(data@.subrange(0, 6) =~= magic_spec());
        } else {
            assert(data@.subrange(0, 6) != magic_spec()) by {
                if data@.subrange(0, 6) == magic_spec() {
                    assert(data@.subrange(0, 6)[0] == 0x37u8);
                    assert(data@.subrange(0, 6)[1] == 0x7Au8);
                    assert(data@.subrange(0, 6)[2] == 0xBCu8);
                    assert(data@.subrange(0, 6)[3] == 0xAFu8);
                    assert(data@.subrange(0, 6)[4] == 0x27u8);
                    assert(data@.subrange(0, 6)[5] == 0x1Cu8);
                }
            }
        }
    }
    if !magic_ok {
        return Err(Error::BadSignature);
    }
    if data.len() < 32 {
        return Err(Error::Truncated);
    }
    if !(data[6] == 0u8 && data[7] <= 4u8) {
        return Err(Error::UnsupportedVersion(data[6], data[7]));
    }
    let stored = u32_from_le_bytes(slice_subrange(data, 8, 12));
    let computed = crc32(slice_subrange(data, 12, 32));
    if stored != computed {
        return Err(Error::ChecksumMismatch(ChecksumKind::StartHeader));
    }
    let next_header_offset = u64_from_le_bytes(slice_subrange(data, 12, 20));
    let next_header_size = u64_from_le_bytes(slice_subrange(data, 20, 28));
    let next_header_crc = u32_from_le_bytes(slice_subrange(data, 28, 32));
    Ok(StartHeader { next_header_offset, next_header_size, next_header_crc })
}

/// Validate the header block against the CRC the start header records.
pub fn check_next_header(header_block: &[u8], expected_crc: u32) -> (r: Result<(), Error>)
    ensures
        r is Ok <==> crc32_spec(header_block@) == expected_crc,
        r matches Err(e) ==> e == Error::ChecksumMismatch(ChecksumKind::NextHeader),
{
    let computed = crc32(header_block);
    if computed == expected_crc {
        Ok(())
    } else {
        Err(Error::ChecksumMismatch(ChecksumKind::NextHeader))
    }
}

/// The CRC law of the start header: in the bytes written for any
/// `StartHeader`, the CRC field at 8..12 is the CRC-32 of bytes 12..32.
pub proof fn lemma_start_header_crc(h: StartHeader)
    ensures
        spec_u32_from_le_bytes(start_header_bytes(h).subrange(8, 12)) == crc32_spec(
            start_header_bytes(h).subrange(12, 32),
        ),
{
    let s = start_header_bytes(h);
    lemma_auto_spec_u32_to_from_le_bytes();
    lemma_auto_spec_u64_to_from_le_bytes();
    assert(magic_spec().len() == 6);
    assert(seq![0u8, 4u8].len() == 2);
    assert(start_header_tail(h).len() == 20);
    assert(s.subrange(12, 32) =~= start_header_tail(h));
    assert(s.subrange(8, 12) =~= spec_u32_to_le_bytes(crc32_spec(start_header_tail(h))));
}

/// Round trip: reading back the bytes written for any `StartHeader`
/// yields that same header.
pub proof fn lemma_start_header_roundtrip(h: StartHeader)
    ensures
        parse_start_header_spec(start_header_bytes(h)) == Ok::<StartHeader, Error>(h),
{
    let s = start_header_bytes(h);
    lemma_auto_spec_u32_to_from_le_bytes();
    lemma_auto_spec_u64_to_from_le_bytes();
    assert(magic_spec().len() == 6);
    assert(seq![0u8, 4u8].len() == 2);
    assert(start_header_tail(h).len() == 20);
    assert(s[6] == 0u8 && s[7] == 4u8);
    assert(s.subrange(0, 6) =~= magic_spec());
    assert(s.subrange(12, 32) =~= start_header_tail(h));
    assert(s.subrange(8, 12) =~= spec_u32_to_le_bytes(crc32_spec(start_header_tail(h))));
    assert(s.subrange(12, 20) =~= spec_u64_to_le_bytes(h.next_header_offset));
    assert(s.subrange(20, 28) =~= spec_u64_to_le_bytes(h.next_header_size));
    assert(s.subrange(28, 32) =~= spec_u32_to_le_bytes(h.next_header_crc));
}

} // verus!
