//! Error taxonomy of the archive core.

use vstd::prelude::*;

verus! {

/// Which checksum failed to verify.
#[derive(Clone, Copy, Debug, PartialEq, Eq, Structural)]
pub enum ChecksumKind {
    /// CRC of bytes 12..32 of the start header.
    StartHeader,
    /// CRC of the header block the start header points at.
    NextHeader,
    /// CRC of a folder's uncompressed output.
    Folder,
    /// CRC of one file's content.
    File,
}

/// Everything the archive core can fail with.
#[derive(Clone, Debug, PartialEq, Eq)]
pub enum Error {
    /// Bytes 0..6 do not match the 7z magic.
    BadSignature,
    /// Format version above 0.4: major, then minor.
    UnsupportedVersion(u8, u8),
    /// A stored CRC-32 does not match the data it covers.
    ChecksumMismatch(ChecksumKind),
    /// Unexpected end of input within a structured read.
    Truncated,
    /// An illegal property sequence or impossible coder wiring.
    MalformedHeader(String),
    /// A method ID that the registry does not map.
    UnsupportedCompressionMethod(String),
    /// An AES layer is present and no password was given.
    PasswordRequired,
    /// Decryption with the given password failed verification.
    BadPassword,
    /// The underlying sink or source failed.
    Io,
}

} // verus!
