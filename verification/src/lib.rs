//! Core of a 7z archive library: the byte-level primitives (CRC-32, the
//! variable-length integer, packed bit vectors, the 32-byte start
//! header), the codec method registry with its property-byte encoding,
//! the folder model with its coder-graph validation, and the writer-side
//! encoder chain that drives the real codecs.

pub mod aes;
pub mod bitvec;
pub mod chain;
pub mod codecs;
pub mod crc32;
pub mod encoders;
pub mod error;
pub mod folder;
pub mod method;
pub mod options;
pub mod start_header;
pub mod utf16;
pub mod util;
pub mod varint;
pub mod writer;
