use sevenz::method::{method_by_id, MethodKind, SevenZMethod};

fn all_methods() -> Vec<SevenZMethod> {
    vec![
        SevenZMethod::COPY,
        SevenZMethod::LZMA,
        SevenZMethod::LZMA2,
        SevenZMethod::DELTA,
        SevenZMethod::BCJ_X86,
        SevenZMethod::BCJ_PPC,
        SevenZMethod::BCJ_IA64,
        SevenZMethod::BCJ_ARM,
        SevenZMethod::BCJ_ARM_THUMB,
        SevenZMethod::BCJ_SPARC,
        SevenZMethod::DEFLATE,
        SevenZMethod::BZIP2,
        SevenZMethod::ZSTD,
        SevenZMethod::BROTLI,
        SevenZMethod::LZ4,
        SevenZMethod::AES256SHA256,
    ]
}

#[test]
fn id_lookup_round_trips() {
    for m in all_methods() {
        let id = m.id();
        assert_eq!(method_by_id(&id), Some(m));
    }
}

#[test]
fn known_ids() {
    assert_eq!(SevenZMethod::COPY.id(), vec![0x00]);
    assert_eq!(SevenZMethod::LZMA.id(), vec![0x03, 0x01, 0x01]);
    assert_eq!(SevenZMethod::LZMA2.id(), vec![0x21]);
    assert_eq!(SevenZMethod::DEFLATE.id(), vec![0x04, 0x01, 0x08]);
    assert_eq!(SevenZMethod::BZIP2.id(), vec![0x04, 0x02, 0x02]);
    assert_eq!(SevenZMethod::ZSTD.id(), vec![0x04, 0xF7, 0x11, 0x01]);
    assert_eq!(SevenZMethod::BROTLI.id(), vec![0x04, 0xF7, 0x11, 0x02]);
    assert_eq!(SevenZMethod::LZ4.id(), vec![0x04, 0xF7, 0x11, 0x04]);
    assert_eq!(SevenZMethod::AES256SHA256.id(), vec![0x06, 0xF1, 0x07, 0x01]);
}

#[test]
fn unknown_id_is_rejected() {
    assert_eq!(method_by_id(&[0x7F]), None);
    assert_eq!(method_by_id(&[]), None);
    assert_eq!(method_by_id(&[0x04, 0xF7, 0x11, 0x7F]), None);
    assert_eq!(method_by_id(&[0x00, 0x00]), None);
}

#[test]
fn names_and_kinds() {
    assert_eq!(SevenZMethod::COPY.name(), "COPY");
    assert_eq!(SevenZMethod::LZMA2.name(), "LZMA2");
    assert_eq!(SevenZMethod::AES256SHA256.name(), "AES256SHA256");
    assert_eq!(SevenZMethod::COPY.kind(), MethodKind::Compressor);
    assert_eq!(SevenZMethod::DELTA.kind(), MethodKind::Filter);
    assert_eq!(SevenZMethod::BCJ_X86.kind(), MethodKind::Filter);
    assert_eq!(SevenZMethod::AES256SHA256.kind(), MethodKind::Crypto);
    assert_eq!(SevenZMethod::ZSTD.kind(), MethodKind::Compressor);
}
