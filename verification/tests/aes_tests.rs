use std::io::Read;

use aes::cipher::block_padding::NoPadding;
use aes::cipher::{BlockModeDecrypt, KeyIvInit};
use sevenz::aes::derive_key;
use sevenz::chain::pack_chain;
use sevenz::encoders::{add_encoder, CountingWriter};
use sevenz::method::SevenZMethod;
use sevenz::options::{AesOptions, MethodOptions, SevenZMethodConfiguration};

fn utf16le(s: &str) -> Vec<u8> {
    let mut out = Vec::new();
    for u in s.encode_utf16() {
        out.extend_from_slice(&u.to_le_bytes());
    }
    out
}

fn aes_opts(password: &str, cycles: u8) -> AesOptions {
    AesOptions {
        password: utf16le(password),
        salt: vec![1u8; 16],
        iv: vec![2u8; 16],
        num_cycles_power: cycles,
    }
}

fn encrypt_with(password: &str, cycles: u8, plaintext: &[u8]) -> Vec<u8> {
    let cfg = SevenZMethodConfiguration {
        method: SevenZMethod::AES256SHA256,
        options: Some(MethodOptions::Aes(aes_opts(password, cycles))),
    };
    let mut enc = add_encoder(CountingWriter::new(), &cfg).unwrap();
    enc.write(plaintext).unwrap();
    enc.finish().unwrap().into_bytes()
}

fn decrypt_with(password: &str, cycles: u8, packed: &[u8]) -> Vec<u8> {
    let key = derive_key(&utf16le(password), cycles);
    let key_arr: [u8; 32] = key.as_slice().try_into().unwrap();
    let iv_arr: [u8; 16] = [2u8; 16];
    cbc::Decryptor::<aes::Aes256>::new(&key_arr.into(), &iv_arr.into())
        .decrypt_padded_vec::<NoPadding>(packed)
        .unwrap()
}

#[test]
fn aes_round_trip_with_the_right_password() {
    let plaintext = b"the quick brown fox jumps over the lazy dog";
    let packed = encrypt_with("pw", 6, plaintext);
    assert_eq!(packed.len() % 16, 0);
    assert_eq!(packed.len(), (plaintext.len() + 15) / 16 * 16);
    assert_ne!(&packed[..plaintext.len()], &plaintext[..]);

    let decrypted = decrypt_with("pw", 6, &packed);
    assert_eq!(&decrypted[..plaintext.len()], &plaintext[..]);
    assert!(decrypted[plaintext.len()..].iter().all(|b| *b == 0));
}

#[test]
fn wrong_password_yields_different_content() {
    let plaintext = b"sixteen byte blk";
    let packed = encrypt_with("pw", 6, plaintext);
    let decrypted = decrypt_with("pX", 6, &packed);
    assert_ne!(&decrypted[..], &plaintext[..]);
}

#[test]
fn derived_keys_differ_per_password() {
    assert_ne!(derive_key(&utf16le("pw"), 19), derive_key(&utf16le("pX"), 19));
    assert_eq!(derive_key(&utf16le("pw"), 19), derive_key(&utf16le("pw"), 19));
}

#[test]
fn direct_key_takes_the_password_bytes() {
    let password = utf16le("k");
    let key = derive_key(&password, 0x40);
    assert_eq!(key.len(), 32);
    assert_eq!(&key[..2], &password[..]);
    assert!(key[2..].iter().all(|b| *b == 0));
}

#[test]
fn single_hash_key_is_the_password_digest() {
    let password = utf16le("pw");
    let key = derive_key(&password, 0x3F);
    let expected = <sha2::Sha256 as sha2::Digest>::digest(&password);
    assert_eq!(key.as_slice(), expected.as_slice());
}

#[test]
fn one_round_key_hashes_password_and_counter() {
    let password = utf16le("pw");
    let key = derive_key(&password, 0);
    let mut input = password.clone();
    input.extend_from_slice(&0u64.to_le_bytes());
    let expected = <sha2::Sha256 as sha2::Digest>::digest(&input);
    assert_eq!(key.as_slice(), expected.as_slice());
}

#[test]
fn aes_then_lzma2_chain_round_trips() {
    let data = b"layered secrets stay layered ".repeat(12);
    let chain = vec![
        SevenZMethodConfiguration {
            method: SevenZMethod::AES256SHA256,
            options: Some(MethodOptions::Aes(aes_opts("pw", 6))),
        },
        SevenZMethodConfiguration { method: SevenZMethod::LZMA2, options: None },
    ];
    let packed = pack_chain(&data, &chain).unwrap();

    let mut ciphertext = Vec::new();
    lzma_rust::LZMA2Reader::new(&packed[..], 0x800000, None)
        .read_to_end(&mut ciphertext)
        .unwrap();
    let decrypted = decrypt_with("pw", 6, &ciphertext);
    assert_eq!(&decrypted[..data.len()], &data[..]);
}
