use std::io::Read;

use sevenz::chain::{is_stage_ok, pack_chain};
use sevenz::crc32::crc32;
use sevenz::method::SevenZMethod;
use sevenz::options::{AesOptions, LZMA2Options, MethodOptions, SevenZMethodConfiguration};
use sevenz::writer::FolderWriter;

fn cfg(method: SevenZMethod, options: Option<MethodOptions>) -> SevenZMethodConfiguration {
    SevenZMethodConfiguration { method, options }
}

#[test]
fn folder_keeps_entry_order_and_flags() {
    let mut fw = FolderWriter::new(&cfg(SevenZMethod::COPY, None)).unwrap();
    fw.push_source("d/".to_string(), &[], true).unwrap();
    fw.push_source("d/x".to_string(), b"xx", false).unwrap();
    fw.push_source("d/y".to_string(), b"yy", false).unwrap();
    fw.push_source("e".to_string(), &[], false).unwrap();
    let (packed, files, folder_crc, unpack_size) = fw.finish().unwrap();

    assert_eq!(packed, b"xxyy");
    assert_eq!(unpack_size, 4);
    assert_eq!(folder_crc, crc32(b"xxyy"));

    assert_eq!(files.len(), 4);
    let names: Vec<&str> = files.iter().map(|f| f.name.as_str()).collect();
    assert_eq!(names, vec!["d/", "d/x", "d/y", "e"]);

    assert!(files[0].is_directory);
    assert!(files[0].is_empty_stream);
    assert!(!files[0].is_empty_file);

    assert!(!files[1].is_directory);
    assert_eq!(files[1].size, 2);
    assert_eq!(files[1].start_pos_in_folder, 0);
    assert_eq!(files[1].crc, Some(crc32(b"xx")));

    assert_eq!(files[2].start_pos_in_folder, 2);
    assert_eq!(files[2].crc, Some(crc32(b"yy")));

    assert!(files[3].is_empty_file);
    assert!(files[3].is_empty_stream);
    assert!(!files[3].is_directory);
    assert_eq!(files[3].size, 0);

    let total: u64 = files.iter().map(|f| f.size).sum();
    assert_eq!(total, unpack_size);
}

#[test]
fn hundred_files_in_one_lzma2_folder() {
    let mut fw = FolderWriter::new(&cfg(SevenZMethod::LZMA2, None)).unwrap();
    let mut all = Vec::new();
    for i in 0..100u32 {
        let mut content = Vec::new();
        let len = 1024 + (i as usize * 97) % 9216;
        for j in 0..len {
            content.push(b'A' + ((i as usize + j * 31) % 26) as u8);
        }
        all.extend_from_slice(&content);
        fw.push_source(format!("file{i:03}.txt"), &content, false).unwrap();
    }
    let (packed, files, folder_crc, unpack_size) = fw.finish().unwrap();

    assert_eq!(files.len(), 100);
    assert_eq!(unpack_size, all.len() as u64);
    assert_eq!(folder_crc, crc32(&all));
    let total: u64 = files.iter().map(|f| f.size).sum();
    assert_eq!(total, unpack_size);

    // The packed stream decodes back to the concatenated contents, and
    // each entry's slice matches what was pushed.
    let mut out = Vec::new();
    lzma_rust::LZMA2Reader::new(&packed[..], 0x800000, None)
        .read_to_end(&mut out)
        .unwrap();
    assert_eq!(out, all);
    for f in &files {
        let start = f.start_pos_in_folder as usize;
        let end = start + f.size as usize;
        assert_eq!(crc32(&out[start..end]), f.crc.unwrap());
    }
}

#[test]
fn chain_of_copies_is_identity() {
    let chain = vec![cfg(SevenZMethod::COPY, None), cfg(SevenZMethod::COPY, None)];
    let packed = pack_chain(b"payload", &chain).unwrap();
    assert_eq!(packed, b"payload");
}

#[test]
fn deflate_then_copy_chain_matches_single_stage() {
    let data = b"abcabcabcabcabcabc".repeat(64);
    let chain = vec![cfg(SevenZMethod::DEFLATE, None), cfg(SevenZMethod::COPY, None)];
    let packed = pack_chain(&data, &chain).unwrap();
    let single = pack_chain(&data, &vec![cfg(SevenZMethod::DEFLATE, None)]).unwrap();
    assert_eq!(packed, single);
    let mut out = Vec::new();
    flate2::read::DeflateDecoder::new(&packed[..])
        .read_to_end(&mut out)
        .unwrap();
    assert_eq!(out, data);
}

#[test]
fn zstd_over_deflate_chain_round_trips() {
    let data = b"the quick brown fox jumps over the lazy dog. ".repeat(50);
    let chain = vec![cfg(SevenZMethod::DEFLATE, None), cfg(SevenZMethod::ZSTD, None)];
    let packed = pack_chain(&data, &chain).unwrap();
    let middle = zstd::stream::decode_all(&packed[..]).unwrap();
    let mut out = Vec::new();
    flate2::read::DeflateDecoder::new(&middle[..])
        .read_to_end(&mut out)
        .unwrap();
    assert_eq!(out, data);
}

#[test]
fn stage_validation_matches_the_option_table() {
    assert!(is_stage_ok(&cfg(SevenZMethod::COPY, None)));
    assert!(is_stage_ok(&cfg(SevenZMethod::LZMA2, None)));
    assert!(is_stage_ok(&cfg(SevenZMethod::LZMA2, Some(MethodOptions::Num(4096)))));
    assert!(!is_stage_ok(&cfg(SevenZMethod::LZMA2, Some(MethodOptions::Num(0)))));
    assert!(!is_stage_ok(&cfg(SevenZMethod::LZMA2, Some(MethodOptions::Num(5000)))));
    let bad_props = LZMA2Options { dict_size: 0x800000, lc: 3, lp: 2, pb: 2 };
    assert!(!is_stage_ok(&cfg(SevenZMethod::LZMA2, Some(MethodOptions::LZMA2(bad_props)))));
    assert!(!is_stage_ok(&cfg(SevenZMethod::BZIP2, Some(MethodOptions::BZIP2(
        sevenz::options::Bzip2Options(0)
    )))));
    assert!(!is_stage_ok(&cfg(SevenZMethod::DELTA, None)));
    assert!(!is_stage_ok(&cfg(SevenZMethod::AES256SHA256, None)));
    let aes = AesOptions {
        password: vec![0x70, 0x00],
        salt: vec![0u8; 16],
        iv: vec![0u8; 16],
        num_cycles_power: 19,
    };
    assert!(is_stage_ok(&cfg(SevenZMethod::AES256SHA256, Some(MethodOptions::Aes(aes)))));
    let short_iv = AesOptions {
        password: vec![0x70, 0x00],
        salt: vec![0u8; 16],
        iv: vec![0u8; 8],
        num_cycles_power: 19,
    };
    assert!(!is_stage_ok(&cfg(SevenZMethod::AES256SHA256, Some(MethodOptions::Aes(short_iv)))));
}
