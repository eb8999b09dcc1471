use sevenz::method::SevenZMethod;
use sevenz::options::{
    get_lzma2_options, get_options_as_properties, is_valid_dict_size, lzma2_dict_size_prop,
    AesOptions, LZMA2Options, MethodOptions,
};

#[test]
fn lzma2_default_dict_prop_byte() {
    // 8 MiB = 1 << 23: eleven doublings above 4 KiB, top bits 10.
    assert_eq!(lzma2_dict_size_prop(0x800000), 22);
}

#[test]
fn lzma2_dict_prop_lattice() {
    assert_eq!(lzma2_dict_size_prop(4096), 0);
    assert_eq!(lzma2_dict_size_prop(3 << 11), 1);
    assert_eq!(lzma2_dict_size_prop(1 << 16), 8);
    assert_eq!(lzma2_dict_size_prop(3 << 20), 19);
    assert_eq!(lzma2_dict_size_prop(1 << 30), 36);
    assert_eq!(lzma2_dict_size_prop(3 << 29), 37);
}

#[test]
fn lzma2_properties_from_options() {
    let p = get_options_as_properties(SevenZMethod::LZMA2, None);
    assert_eq!(p, vec![22]);
    let p = get_options_as_properties(SevenZMethod::LZMA2, Some(&MethodOptions::Num(1 << 16)));
    assert_eq!(p, vec![8]);
}

#[test]
fn lzma_properties_default() {
    // Props byte (pb=2, lp=0, lc=3) = 93, then the dictionary size in
    // little-endian order.
    let p = get_options_as_properties(SevenZMethod::LZMA, None);
    assert_eq!(p, vec![93, 0x00, 0x00, 0x80, 0x00]);
}

#[test]
fn copy_has_no_properties() {
    let p = get_options_as_properties(SevenZMethod::COPY, None);
    assert!(p.is_empty());
}

#[test]
fn aes_properties_blob() {
    let a = AesOptions {
        password: vec![],
        salt: vec![1u8; 16],
        iv: vec![2u8; 16],
        num_cycles_power: 19,
    };
    let p = get_options_as_properties(SevenZMethod::AES256SHA256, Some(&MethodOptions::Aes(a)));
    assert_eq!(p.len(), 34);
    assert_eq!(p[0], 19 | 0xC0);
    assert_eq!(p[1], 0xFF);
    assert_eq!(&p[2..18], &[1u8; 16]);
    assert_eq!(&p[18..34], &[2u8; 16]);
}

#[test]
fn resolve_lzma2_options() {
    let mut defaults = LZMA2Options::default();
    let explicit = LZMA2Options { dict_size: 1 << 16, lc: 1, lp: 2, pb: 3 };
    let r = get_lzma2_options(Some(&MethodOptions::LZMA2(explicit)), &mut defaults);
    assert_eq!(r, explicit);

    let mut defaults = LZMA2Options::default();
    let r = get_lzma2_options(Some(&MethodOptions::Num(4096)), &mut defaults);
    assert_eq!(r.dict_size, 4096);
    assert_eq!(r.lc, 3);
    assert_eq!(defaults.dict_size, 4096);

    let mut defaults = LZMA2Options::default();
    let r = get_lzma2_options(None, &mut defaults);
    assert_eq!(r.dict_size, 0x800000);
    assert_eq!((r.lc, r.lp, r.pb), (3, 0, 2));
}

#[test]
fn lzma2_props_byte_packs_fields() {
    let o = LZMA2Options { dict_size: 0x800000, lc: 3, lp: 0, pb: 2 };
    assert_eq!(o.get_props(), 93);
    let o = LZMA2Options { dict_size: 0x800000, lc: 0, lp: 0, pb: 0 };
    assert_eq!(o.get_props(), 0);
}

#[test]
fn dict_size_lattice_membership() {
    for d in [4096u32, 3 << 11, 1 << 16, 0x800000, 3 << 20, 1 << 30, 3 << 29] {
        assert!(is_valid_dict_size(d));
    }
    for d in [0u32, 1, 4095, 5000, 0x800001, (3 << 29) + 1, u32::MAX] {
        assert!(!is_valid_dict_size(d));
    }
}
