//! One-shot compression over the outside codec crates. Each codec is an
//! opaque byte transform: its output gets a name, and the chain's
//! contracts speak of those names.

use vstd::prelude::*;
use crate::error::Error;
use crate::options::valid_dict_size;

verus! {

/// Raw LZMA stream (no header, no end marker) of `data` under the given
/// dictionary size and literal/position parameters, at the preset-6
/// match-finder settings.
pub uninterp spec fn lzma_of(data: Seq<u8>, dict_size: u32, lc: u32, lp: u32, pb: u32) -> Seq<u8>;

/// LZMA2 stream of `data` under the given dictionary size and
/// literal/position parameters, at the preset-6 match-finder settings.
pub uninterp spec fn lzma2_of(data: Seq<u8>, dict_size: u32, lc: u32, lp: u32, pb: u32) -> Seq<u8>;

/// Brotli stream of `data` at the given quality and log-window, produced
/// through a 4 KiB buffer.
pub uninterp spec fn brotli_of(data: Seq<u8>, quality: u32, window: u32) -> Seq<u8>;

/// Bzip2 stream of `data` at the given level.
pub uninterp spec fn bzip2_of(data: Seq<u8>, level: u32) -> Seq<u8>;

/// Raw deflate stream of `data` at the given level.
pub uninterp spec fn deflate_of(data: Seq<u8>, level: u32) -> Seq<u8>;

/// LZ4 frame of `data` at the default frame settings.
pub uninterp spec fn lz4_of(data: Seq<u8>) -> Seq<u8>;

/// Zstandard frame of `data` at the given level.
pub uninterp spec fn zstd_of(data: Seq<u8>, level: u32) -> Seq<u8>;

/// Relies on lzma_rust::LZMAWriter::new_no_header, Write::write_all and
/// LZMAWriter::finish: a raw LZMA stream, a function of the data and the
/// four option fields alone. The option bounds and the dictionary
/// lattice keep the encoder's shifts and table sizes in range; the
/// in-memory sink never fails, so the call succeeds.
#[verifier::external_body]
pub(crate) fn lzma_compress(data: &[u8], dict_size: u32, lc: u32, lp: u32, pb: u32) -> (r: Result<
    Vec<u8>,
    Error,
>)
    requires
        lc <= 8,
        lp <= 4,
        pb <= 4,
        valid_dict_size(dict_size),
    ensures
        r is Ok,
        r matches Ok(v) ==> v@ == lzma_of(data@, dict_size, lc, lp, pb),
{
    let mut opts = lzma_rust::LZMA2Options::with_preset(6);
    (opts.dict_size, opts.lc, opts.lp, opts.pb) = (dict_size, lc, lp, pb);
    let mut out: Vec<u8> = Vec::new();
    let cw = lzma_rust::CountingWriter::new(std::io::Cursor::new(&mut out));
    let mut w = match lzma_rust::LZMAWriter::new_no_header(cw, &opts, false) {
        Ok(w) => w,
        Err(_) => return Err(Error::Io),
    };
    if std::io::Write::write_all(&mut w, data).is_err() || w.finish().is_err() {
        return Err(Error::Io);
    }
    drop(w);
    Ok(out)
}

/// Relies on lzma_rust::LZMA2Writer::new, Write::write_all and
/// LZMA2Writer::finish: an LZMA2 stream, a function of the data and the
/// four option fields alone. The option bounds and the dictionary
/// lattice keep the encoder's shifts and table sizes in range; the
/// in-memory sink never fails, so the call succeeds.
#[verifier::external_body]
pub(crate) fn lzma2_compress(data: &[u8], dict_size: u32, lc: u32, lp: u32, pb: u32) -> (r: Result<
    Vec<u8>,
    Error,
>)
    requires
        lc <= 8,
        lp <= 4,
        pb <= 4,
        valid_dict_size(dict_size),
    ensures
        r is Ok,
        r matches Ok(v) ==> v@ == lzma2_of(data@, dict_size, lc, lp, pb),
{
    let mut opts = lzma_rust::LZMA2Options::with_preset(6);
    (opts.dict_size, opts.lc, opts.lp, opts.pb) = (dict_size, lc, lp, pb);
    let mut out: Vec<u8> = Vec::new();
    let cw = lzma_rust::CountingWriter::new(std::io::Cursor::new(&mut out));
    let mut w = lzma_rust::LZMA2Writer::new(cw, &opts);
    if std::io::Write::write_all(&mut w, data).is_err() || w.finish().is_err() {
        return Err(Error::Io);
    }
    drop(w);
    Ok(out)
}

/// Relies on brotli::CompressorWriter::new (4 KiB buffer), Write::write_all
/// and into_inner, which finishes the stream; over an in-memory sink the
/// call succeeds.
#[verifier::external_body]
pub(crate) fn brotli_compress(data: &[u8], quality: u32, window: u32) -> (r: Result<Vec<u8>, Error>)
    requires
        quality <= 11,
        10 <= window <= 24,
    ensures
        r is Ok,
        r matches Ok(v) ==> v@ == brotli_of(data@, quality, window),
{
    let mut w = brotli::CompressorWriter::new(Vec::new(), 4096, quality, window);
    if std::io::Write::write_all(&mut w, data).is_err() {
        return Err(Error::Io);
    }
    Ok(w.into_inner())
}

/// Relies on bzip2::write::BzEncoder::new with bzip2::Compression::new
/// (which panics outside 1..=9), Write::write_all and finish; over an
/// in-memory sink the call succeeds.
#[verifier::external_body]
pub(crate) fn bzip2_compress(data: &[u8], level: u32) -> (r: Result<Vec<u8>, Error>)
    requires
        1 <= level <= 9,
    ensures
        r is Ok,
        r matches Ok(v) ==> v@ == bzip2_of(data@, level),
{
    let mut w = bzip2::write::BzEncoder::new(Vec::new(), bzip2::Compression::new(level));
    if std::io::Write::write_all(&mut w, data).is_err() {
        return Err(Error::Io);
    }
    match w.finish() {
        Ok(v) => Ok(v),
        Err(_) => Err(Error::Io),
    }
}

/// Relies on flate2::write::DeflateEncoder::new with
/// flate2::Compression::new, Write::write_all and finish; over an
/// in-memory sink the call succeeds.
#[verifier::external_body]
pub(crate) fn deflate_compress(data: &[u8], level: u32) -> (r: Result<Vec<u8>, Error>)
    requires
        level <= 9,
    ensures
        r is Ok,
        r matches Ok(v) ==> v@ == deflate_of(data@, level),
{
    let mut w = flate2::write::DeflateEncoder::new(Vec::new(), flate2::Compression::new(level));
    if std::io::Write::write_all(&mut w, data).is_err() {
        return Err(Error::Io);
    }
    match w.finish() {
        Ok(v) => Ok(v),
        Err(_) => Err(Error::Io),
    }
}

/// Relies on lz4_flex::frame::FrameEncoder::new, Write::write_all and
/// finish; over an in-memory sink the call succeeds.
#[verifier::external_body]
pub(crate) fn lz4_compress(data: &[u8]) -> (r: Result<Vec<u8>, Error>)
    ensures
        r is Ok,
        r matches Ok(v) ==> v@ == lz4_of(data@),
{
    let mut w = lz4_flex::frame::FrameEncoder::new(Vec::new());
    if std::io::Write::write_all(&mut w, data).is_err() {
        return Err(Error::Io);
    }
    match w.finish() {
        Ok(v) => Ok(v),
        Err(_) => Err(Error::Io),
    }
}

/// Relies on zstd::stream::encode_all over a byte slice; with a level
/// the library accepts, the call succeeds.
#[verifier::external_body]
pub(crate) fn zstd_compress(data: &[u8], level: u32) -> (r: Result<Vec<u8>, Error>)
    requires
        1 <= level <= 22,
    ensures
        r is Ok,
        r matches Ok(v) ==> v@ == zstd_of(data@, level),
{
    match zstd::stream::encode_all(data, level as i32) {
        Ok(v) => Ok(v),
        Err(_) => Err(Error::Io),
    }
}

} // verus!
