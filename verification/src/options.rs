//! Writer options per method and their encoding as 7z property bytes.

use vstd::prelude::*;
use vstd::bytes::spec_u32_to_le_bytes;
use vstd::bytes::u32_to_le_bytes;
use vstd::std_specs::bits::u32_leading_zeros;
use vstd::std_specs::bits::axiom_u32_leading_zeros;
use crate::method::SevenZMethod;
use crate::util::push_all;

verus! {

/// Options of the LZMA and LZMA2 methods: dictionary size and the three
/// literal/position parameters that make up the LZMA properties byte.
#[derive(Clone, Copy, Debug, PartialEq, Eq, Structural)]
pub struct LZMA2Options {
    pub dict_size: u32,
    pub lc: u32,
    pub lp: u32,
    pub pb: u32,
}

/// Options of the BROTLI method.
#[derive(Clone, Copy, Debug, PartialEq, Eq, Structural)]
pub struct BrotliOptions {
    pub quality: u32,
    pub window: u32,
}

/// Options of the BZIP2 method: the compression level.
#[derive(Clone, Copy, Debug, PartialEq, Eq, Structural)]
pub struct Bzip2Options(pub u32);

/// Options of the DEFLATE method: the compression level.
#[derive(Clone, Copy, Debug, PartialEq, Eq, Structural)]
pub struct DeflateOptions(pub u32);

/// Options of the ZSTD method: the compression level.
#[derive(Clone, Copy, Debug, PartialEq, Eq, Structural)]
pub struct ZstdOptions(pub u32);

/// Options of the AES-256-SHA-256 layer: password as UTF-16LE bytes, a
/// 16-byte salt, a 16-byte IV, and the key-derivation cycle exponent.
#[derive(Clone, Debug, PartialEq, Eq)]
pub struct AesOptions {
    pub password: Vec<u8>,
    pub salt: Vec<u8>,
    pub iv: Vec<u8>,
    pub num_cycles_power: u8,
}

impl AesOptions {
    /// Salt and IV are full-size and the cycle exponent fits its six bits.
    pub open spec fn wf(self) -> bool {
        self.salt@.len() == 16 && self.iv@.len() == 16 && self.num_cycles_power <= 0x3F
    }
}

/// Options attached to one method of a chain.
#[derive(Clone, Debug, PartialEq, Eq)]
pub enum MethodOptions {
    /// A bare number: for LZMA and LZMA2 it is the dictionary size.
    Num(u32),
    LZMA2(LZMA2Options),
    BROTLI(BrotliOptions),
    BZIP2(Bzip2Options),
    DEFLATE(DeflateOptions),
    ZSTD(ZstdOptions),
    Aes(AesOptions),
}

/// One method together with its options.
#[derive(Clone, Debug, PartialEq, Eq)]
pub struct SevenZMethodConfiguration {
    pub method: SevenZMethod,
    pub options: Option<MethodOptions>,
}

impl LZMA2Options {
    /// The writer's default dictionary size: 8 MiB.
    pub const DICT_SIZE_DEFAULT: u32 = 0x800000;

    /// The lc, lp and pb fields are inside the ranges LZMA admits, so
    /// the properties byte is well defined.
    pub open spec fn props_wf(self) -> bool {
        self.lc <= 8 && self.lp <= 4 && self.pb <= 4
    }

    /// The packed LZMA properties byte.
    pub fn get_props(&self) -> (r: u8)
        requires
            self.props_wf(),
        ensures
            r == lzma_props_byte(*self),
    {
        let v: u32 = (self.pb * 5 + self.lp) * 9 + self.lc;
        v as u8
    }
}

/// The defaults the writer starts from (preset 6): 8 MiB dictionary,
/// lc = 3, lp = 0, pb = 2.
pub open spec fn lzma2_defaults() -> LZMA2Options {
    LZMA2Options { dict_size: 0x800000, lc: 3, lp: 0, pb: 2 }
}

impl Default for LZMA2Options {
    /// The preset-6 defaults.
    fn default() -> (r: Self)
        ensures
            r == lzma2_defaults(),
    {
        LZMA2Options { dict_size: 0x800000, lc: 3, lp: 0, pb: 2 }
    }
}

/// The packed LZMA properties byte: (pb * 5 + lp) * 9 + lc.
pub open spec fn lzma_props_byte(o: LZMA2Options) -> u8 {
    (((o.pb * 5 + o.lp) * 9 + o.lc) % 256) as u8
}

/// A dictionary size the LZMA2 property byte can encode: a power of two,
/// or three halves of one, between 4 KiB and 1.5 GiB.
pub open spec fn valid_dict_size(d: u32) -> bool {
    &&& 4096 <= d <= 0x60000000
    &&& {
        ||| d & ((d - 1) as u32) == 0
        ||| (d % 3 == 0 && ((d / 3) as u32) & ((d / 3 - 1) as u32) == 0)
    }
}

/// Whether `d` is an encodable dictionary size.
pub fn is_valid_dict_size(d: u32) -> (b: bool)
    ensures
        b == valid_dict_size(d),
{
    4096 <= d && d <= 0x60000000 && ((d & (d - 1)) == 0 || (d % 3 == 0 && ((d / 3) & (d / 3 - 1))
        == 0))
}

/// The one-byte encoding of an LZMA2 dictionary size: with `lead` the
/// number of leading zero bits, the top two bits of `d` (10 or 11) pick
/// the low bit and the position picks the rest.
pub open spec fn lzma2_dict_size_prop_spec(d: u32) -> u8 {
    let lead = u32_leading_zeros(d);
    if lead <= 19 {
        let second = (d >> ((30 - lead) as u32)) as int - 2;
        ((19 - lead) * 2 + second) as u8
    } else {
        0
    }
}

/// Encode a dictionary size as the LZMA2 property byte.
pub fn lzma2_dict_size_prop(dict_size: u32) -> (p: u8)
    requires
        valid_dict_size(dict_size),
    ensures
        p == lzma2_dict_size_prop_spec(dict_size),
        p <= 39,
{
    proof {
        axiom_u32_leading_zeros(dict_size);
    }
    let lead = dict_size.leading_zeros();
    proof {
        let l = u32_leading_zeros(dict_size);
        assert(l <= 19 && (dict_size >> ((30 - l) as u32)) >= 2 && (dict_size >> ((30 - l) as u32))
            <= 3) by (bit_vector)
            requires
                4096 <= dict_size,
                l <= 32,
                dict_size >> ((32 - l) as u32) == 0,
                l < 32 ==> (dict_size >> ((31 - l) as u32)) & 1u32 != 0u32,
        ;
    }
    let shifted = dict_size >> (30 - lead);
    let second_bit = shifted - 2;
    let p32 = (19 - lead) * 2 + second_bit;
    p32 as u8
}

/// The dictionary size options carry for LZMA2, or the default.
pub open spec fn lzma2_dict_size_of(options: Option<MethodOptions>) -> u32 {
    match options {
        Some(MethodOptions::Num(n)) => n,
        Some(MethodOptions::LZMA2(o)) => o.dict_size,
        _ => 0x800000,
    }
}

impl MethodOptions {
    /// The dictionary size this option set gives LZMA2, or the default.
    pub fn get_lzma2_dict_size(&self) -> (r: u32)
        ensures
            r == lzma2_dict_size_of(Some(*self)),
    {
        match self {
            MethodOptions::Num(n) => *n,
            MethodOptions::LZMA2(o) => o.dict_size,
            _ => 0x800000,
        }
    }
}

/// What `get_lzma2_options` resolves to: explicit LZMA2 options stand,
/// a bare number overrides the defaults' dictionary size, anything else
/// falls back to the defaults with the default dictionary size.
pub open spec fn lzma2_options_of(options: Option<MethodOptions>, defaults: LZMA2Options) -> LZMA2Options {
    match options {
        Some(MethodOptions::LZMA2(o)) => o,
        Some(MethodOptions::Num(n)) => LZMA2Options {
            dict_size: n,
            lc: defaults.lc,
            lp: defaults.lp,
            pb: defaults.pb,
        },
        _ => LZMA2Options {
            dict_size: 0x800000,
            lc: defaults.lc,
            lp: defaults.lp,
            pb: defaults.pb,
        },
    }
}

/// The option value behind an optional borrow.
pub open spec fn opts_view(options: Option<&MethodOptions>) -> Option<MethodOptions> {
    match options {
        Some(o) => Some(*o),
        None => None,
    }
}

/// Resolve the LZMA / LZMA2 options to use: explicit options win, a bare
/// number sets the dictionary size on the defaults, otherwise the defaults
/// with the default dictionary size.
pub fn get_lzma2_options(options: Option<&MethodOptions>, def_opt: &mut LZMA2Options) -> (r:
    LZMA2Options)
    ensures
        r == lzma2_options_of(opts_view(options), *old(def_opt)),
        *final(def_opt) == (match opts_view(options) {
            Some(MethodOptions::LZMA2(_)) => *old(def_opt),
            _ => r,
        }),
{
    match options {
        Some(MethodOptions::LZMA2(o)) => *o,
        Some(MethodOptions::Num(n)) => {
            def_opt.dict_size = *n;
            *def_opt
        },
        _ => {
            def_opt.dict_size = 0x800000;
            *def_opt
        },
    }
}

/// The property bytes a method records in the header for given options:
/// one dictionary-size byte for LZMA2; the packed properties byte then
/// the little-endian dictionary size for LZMA; the 34-byte blob for AES;
/// nothing for every other method.
pub open spec fn properties_spec(method: SevenZMethod, options: Option<MethodOptions>) -> Seq<u8> {
    match method {
        SevenZMethod::LZMA2 => seq![lzma2_dict_size_prop_spec(lzma2_dict_size_of(options))],
        SevenZMethod::LZMA => {
            let o = lzma2_options_of(options, lzma2_defaults());
            seq![lzma_props_byte(o)] + spec_u32_to_le_bytes(o.dict_size)
        },
        SevenZMethod::AES256SHA256 => match options {
            Some(MethodOptions::Aes(a)) => aes_properties_spec(a),
            _ => Seq::empty(),
        },
        _ => Seq::empty(),
    }
}

/// The 34-byte AES property blob: cycles with the salt and IV bits set,
/// the salt and IV sizes packed in one byte, then 16 salt and 16 IV bytes.
pub open spec fn aes_properties_spec(a: AesOptions) -> Seq<u8> {
    seq![(a.num_cycles_power | 0xC0u8), 0xFFu8] + a.salt@ + a.iv@
}

/// The options given are inside the ranges the method recognizes, as far
/// as the property encoding depends on them.
pub open spec fn options_wf_for(method: SevenZMethod, options: Option<MethodOptions>) -> bool {
    match method {
        SevenZMethod::LZMA2 => valid_dict_size(lzma2_dict_size_of(options)),
        SevenZMethod::LZMA => lzma2_options_of(options, lzma2_defaults()).props_wf(),
        SevenZMethod::AES256SHA256 => match options {
            Some(MethodOptions::Aes(a)) => a.wf(),
            _ => true,
        },
        _ => true,
    }
}

impl AesOptions {
    /// The 34-byte property blob of this AES layer.
    pub fn write_properties(&self) -> (r: Vec<u8>)
        requires
            self.wf(),
        ensures
            r@ == aes_properties_spec(*self),
    {
        let mut out: Vec<u8> = Vec::new();
        out.push(self.num_cycles_power | 0xC0u8);
        out.push(0xFFu8);
        push_all(&mut out, self.salt.as_slice());
        push_all(&mut out, self.iv.as_slice());
        proof {
            assert(out@ =~= aes_properties_spec(*self));
        }
        out
    }
}

/// The property bytes for `method` under `options`.
pub fn get_options_as_properties(method: SevenZMethod, options: Option<&MethodOptions>) -> (r: Vec<
    u8,
>)
    requires
        options_wf_for(method, opts_view(options)),
    ensures
        r@ == properties_spec(method, opts_view(options)),
{
    match method {
        SevenZMethod::LZMA2 => {
            let dict_size = match options {
                Some(o) => o.get_lzma2_dict_size(),
                None => 0x800000,
            };
            let mut out: Vec<u8> = Vec::new();
            out.push(lzma2_dict_size_prop(dict_size));
            proof {
                assert(out@ =~= properties_spec(method, opts_view(options)));
            }
            out
        },
        SevenZMethod::LZMA => {
            let mut def_opts = LZMA2Options::default();
            let o = get_lzma2_options(options, &mut def_opts);
            let mut out: Vec<u8> = Vec::new();
            out.push(o.get_props());
            let dict = u32_to_le_bytes(o.dict_size);
            push_all(&mut out, dict.as_slice());
            proof {
                assert(out@ =~= properties_spec(method, opts_view(options)));
            }
            out
        },
        SevenZMethod::AES256SHA256 => {
            match options {
                Some(MethodOptions::Aes(a)) => a.write_properties(),
                _ => Vec::new(),
            }
        },
        _ => Vec::new(),
    }
}

} // verus!
