use std::io::Read;

use sevenz::encoders::{add_encoder, CountingWriter, Encoder};
use sevenz::error::Error;
use sevenz::method::SevenZMethod;
use sevenz::options::{
    AesOptions, BrotliOptions, Bzip2Options, DeflateOptions, MethodOptions,
    SevenZMethodConfiguration, ZstdOptions,
};

fn cfg(method: SevenZMethod, options: Option<MethodOptions>) -> SevenZMethodConfiguration {
    SevenZMethodConfiguration { method, options }
}

fn run_encoder(config: &SevenZMethodConfiguration, data: &[u8]) -> Vec<u8> {
    let mut enc = add_encoder(CountingWriter::new(), config).unwrap();
    assert_eq!(enc.write(data).unwrap(), data.len());
    enc.flush().unwrap();
    enc.finish().unwrap().into_bytes()
}

fn sample() -> Vec<u8> {
    let mut data = Vec::new();
    for i in 0..4096u32 {
        data.push((i % 251) as u8);
        data.push(b'A' + (i % 26) as u8);
    }
    data
}

#[test]
fn copy_passes_bytes_through() {
    let packed = run_encoder(&cfg(SevenZMethod::COPY, None), b"AAAA");
    assert_eq!(packed, b"AAAA");
}

#[test]
fn deflate_round_trip() {
    let data = sample();
    let packed = run_encoder(
        &cfg(SevenZMethod::DEFLATE, Some(MethodOptions::DEFLATE(DeflateOptions(6)))),
        &data,
    );
    assert_ne!(packed, data);
    let mut out = Vec::new();
    flate2::read::DeflateDecoder::new(&packed[..])
        .read_to_end(&mut out)
        .unwrap();
    assert_eq!(out, data);
}

#[test]
fn bzip2_round_trip() {
    let data = sample();
    let packed = run_encoder(
        &cfg(SevenZMethod::BZIP2, Some(MethodOptions::BZIP2(Bzip2Options(6)))),
        &data,
    );
    let mut out = Vec::new();
    bzip2::read::BzDecoder::new(&packed[..])
        .read_to_end(&mut out)
        .unwrap();
    assert_eq!(out, data);
}

#[test]
fn brotli_round_trip() {
    let data = sample();
    let packed = run_encoder(
        &cfg(
            SevenZMethod::BROTLI,
            Some(MethodOptions::BROTLI(BrotliOptions { quality: 9, window: 22 })),
        ),
        &data,
    );
    let mut out = Vec::new();
    brotli::Decompressor::new(&packed[..], 4096)
        .read_to_end(&mut out)
        .unwrap();
    assert_eq!(out, data);
}

#[test]
fn lz4_round_trip() {
    let data = sample();
    let packed = run_encoder(&cfg(SevenZMethod::LZ4, None), &data);
    let mut out = Vec::new();
    lz4_flex::frame::FrameDecoder::new(&packed[..])
        .read_to_end(&mut out)
        .unwrap();
    assert_eq!(out, data);
}

#[test]
fn zstd_round_trip() {
    let data = sample();
    let packed = run_encoder(
        &cfg(SevenZMethod::ZSTD, Some(MethodOptions::ZSTD(ZstdOptions(3)))),
        &data,
    );
    let out = zstd::stream::decode_all(&packed[..]).unwrap();
    assert_eq!(out, data);
}

#[test]
fn lzma2_round_trip() {
    let data = sample();
    let packed = run_encoder(&cfg(SevenZMethod::LZMA2, None), &data);
    let mut out = Vec::new();
    lzma_rust::LZMA2Reader::new(&packed[..], 0x800000, None)
        .read_to_end(&mut out)
        .unwrap();
    assert_eq!(out, data);
}

#[test]
fn lzma_round_trip() {
    let data = sample();
    let packed = run_encoder(&cfg(SevenZMethod::LZMA, None), &data);
    let mut out = Vec::new();
    lzma_rust::LZMAReader::new(&packed[..], data.len() as u64, 3, 0, 2, 0x800000, None)
        .unwrap()
        .read_to_end(&mut out)
        .unwrap();
    assert_eq!(out, data);
}

#[test]
fn aes_without_password_is_refused() {
    let r = add_encoder(CountingWriter::new(), &cfg(SevenZMethod::AES256SHA256, None));
    assert_eq!(r.err(), Some(Error::PasswordRequired));
}

#[test]
fn aes_with_password_builds_an_encrypting_stage() {
    let a = AesOptions {
        password: vec![0x70, 0x00, 0x77, 0x00],
        salt: vec![0u8; 16],
        iv: vec![0u8; 16],
        num_cycles_power: 6,
    };
    let mut enc = add_encoder(
        CountingWriter::new(),
        &cfg(SevenZMethod::AES256SHA256, Some(MethodOptions::Aes(a))),
    )
    .unwrap();
    enc.write(b"AAAA").unwrap();
    let packed = enc.finish().unwrap().into_bytes();
    assert_eq!(packed.len(), 16);
    assert_ne!(&packed[..4], b"AAAA");
}

#[test]
fn filters_are_refused() {
    let r = add_encoder(CountingWriter::new(), &cfg(SevenZMethod::DELTA, None));
    assert!(matches!(
        r.err(),
        Some(Error::UnsupportedCompressionMethod(s)) if s == "DELTA"
    ));
    let r = add_encoder(CountingWriter::new(), &cfg(SevenZMethod::BCJ_X86, None));
    assert!(matches!(
        r.err(),
        Some(Error::UnsupportedCompressionMethod(s)) if s == "BCJ_X86"
    ));
}

#[test]
fn copy_encoder_is_a_counting_sink() {
    let mut enc = match add_encoder(CountingWriter::new(), &cfg(SevenZMethod::COPY, None)) {
        Ok(e) => e,
        Err(_) => panic!("COPY must be accepted"),
    };
    enc.write(b"ab").unwrap();
    enc.write(b"cd").unwrap();
    let w: CountingWriter = match enc {
        Encoder::COPY(w) => w,
        _ => panic!("COPY stage expected"),
    };
    assert_eq!(w.writed_bytes(), 4);
    assert_eq!(w.into_bytes(), b"abcd");
}
