//! The codec method registry: the closed set of 7z method IDs the core
//! recognizes, each with its symbolic name and its role in a chain.

use vstd::prelude::*;

verus! {

/// The closed set of methods the registry maps.
#[derive(Clone, Copy, Debug, PartialEq, Eq, Structural)]
pub enum SevenZMethod {
    COPY,
    LZMA,
    LZMA2,
    DELTA,
    BCJ_X86,
    BCJ_PPC,
    BCJ_IA64,
    BCJ_ARM,
    BCJ_ARM_THUMB,
    BCJ_SPARC,
    DEFLATE,
    BZIP2,
    ZSTD,
    BROTLI,
    LZ4,
    AES256SHA256,
}

/// What a method contributes to a codec chain.
#[derive(Clone, Copy, Debug, PartialEq, Eq, Structural)]
pub enum MethodKind {
    Compressor,
    Filter,
    Crypto,
}

/// The 7z method ID bytes of a method.
pub open spec fn method_id_spec(m: SevenZMethod) -> Seq<u8> {
    match m {
        SevenZMethod::COPY => seq![0x00u8],
        SevenZMethod::LZMA => seq![0x03u8, 0x01u8, 0x01u8],
        SevenZMethod::LZMA2 => seq![0x21u8],
        SevenZMethod::DELTA => seq![0x03u8],
        SevenZMethod::BCJ_X86 => seq![0x03u8, 0x03u8, 0x01u8, 0x03u8],
        SevenZMethod::BCJ_PPC => seq![0x03u8, 0x03u8, 0x02u8, 0x05u8],
        SevenZMethod::BCJ_IA64 => seq![0x03u8, 0x03u8, 0x03u8, 0x01u8],
        SevenZMethod::BCJ_ARM => seq![0x03u8, 0x03u8, 0x05u8, 0x01u8],
        SevenZMethod::BCJ_ARM_THUMB => seq![0x03u8, 0x03u8, 0x07u8, 0x01u8],
        SevenZMethod::BCJ_SPARC => seq![0x03u8, 0x03u8, 0x08u8, 0x05u8],
        SevenZMethod::DEFLATE => seq![0x04u8, 0x01u8, 0x08u8],
        SevenZMethod::BZIP2 => seq![0x04u8, 0x02u8, 0x02u8],
        SevenZMethod::ZSTD => seq![0x04u8, 0xF7u8, 0x11u8, 0x01u8],
        SevenZMethod::BROTLI => seq![0x04u8, 0xF7u8, 0x11u8, 0x02u8],
        SevenZMethod::LZ4 => seq![0x04u8, 0xF7u8, 0x11u8, 0x04u8],
        SevenZMethod::AES256SHA256 => seq![0x06u8, 0xF1u8, 0x07u8, 0x01u8],
    }
}

/// The symbolic name of a method.
pub open spec fn method_name_spec(m: SevenZMethod) -> Seq<char> {
    match m {
        SevenZMethod::COPY => "COPY"@,
        SevenZMethod::LZMA => "LZMA"@,
        SevenZMethod::LZMA2 => "LZMA2"@,
        SevenZMethod::DELTA => "DELTA"@,
        SevenZMethod::BCJ_X86 => "BCJ_X86"@,
        SevenZMethod::BCJ_PPC => "BCJ_PPC"@,
        SevenZMethod::BCJ_IA64 => "BCJ_IA64"@,
        SevenZMethod::BCJ_ARM => "BCJ_ARM"@,
        SevenZMethod::BCJ_ARM_THUMB => "BCJ_ARM_THUMB"@,
        SevenZMethod::BCJ_SPARC => "BCJ_SPARC"@,
        SevenZMethod::DEFLATE => "DEFLATE"@,
        SevenZMethod::BZIP2 => "BZIP2"@,
        SevenZMethod::ZSTD => "ZSTD"@,
        SevenZMethod::BROTLI => "BROTLI"@,
        SevenZMethod::LZ4 => "LZ4"@,
        SevenZMethod::AES256SHA256 => "AES256SHA256"@,
    }
}

/// The role of a method in a chain.
pub open spec fn method_kind_spec(m: SevenZMethod) -> MethodKind {
    match m {
        SevenZMethod::DELTA => MethodKind::Filter,
        SevenZMethod::BCJ_X86 => MethodKind::Filter,
        SevenZMethod::BCJ_PPC => MethodKind::Filter,
        SevenZMethod::BCJ_IA64 => MethodKind::Filter,
        SevenZMethod::BCJ_ARM => MethodKind::Filter,
        SevenZMethod::BCJ_ARM_THUMB => MethodKind::Filter,
        SevenZMethod::BCJ_SPARC => MethodKind::Filter,
        SevenZMethod::AES256SHA256 => MethodKind::Crypto,
        _ => MethodKind::Compressor,
    }
}

/// The method whose ID bytes are `s`, if the registry maps them.
pub open spec fn spec_method_by_id(s: Seq<u8>) -> Option<SevenZMethod> {
    if s.len() == 1 {
        if s[0] == 0x00u8 {
            Some(SevenZMethod::COPY)
        } else if s[0] == 0x21u8 {
            Some(SevenZMethod::LZMA2)
        } else if s[0] == 0x03u8 {
            Some(SevenZMethod::DELTA)
        } else {
            None
        }
    } else if s.len() == 3 {
        if s[0] == 0x03u8 && s[1] == 0x01u8 && s[2] == 0x01u8 {
            Some(SevenZMethod::LZMA)
        } else if s[0] == 0x04u8 && s[1] == 0x01u8 && s[2] == 0x08u8 {
            Some(SevenZMethod::DEFLATE)
        } else if s[0] == 0x04u8 && s[1] == 0x02u8 && s[2] == 0x02u8 {
            Some(SevenZMethod::BZIP2)
        } else {
            None
        }
    } else if s.len() == 4 {
        if s[0] == 0x03u8 && s[1] == 0x03u8 {
            if s[2] == 0x01u8 && s[3] == 0x03u8 {
                Some(SevenZMethod::BCJ_X86)
            } else if s[2] == 0x02u8 && s[3] == 0x05u8 {
                Some(SevenZMethod::BCJ_PPC)
            } else if s[2] == 0x03u8 && s[3] == 0x01u8 {
                Some(SevenZMethod::BCJ_IA64)
            } else if s[2] == 0x05u8 && s[3] == 0x01u8 {
                Some(SevenZMethod::BCJ_ARM)
            } else if s[2] == 0x07u8 && s[3] == 0x01u8 {
                Some(SevenZMethod::BCJ_ARM_THUMB)
            } else if s[2] == 0x08u8 && s[3] == 0x05u8 {
                Some(SevenZMethod::BCJ_SPARC)
            } else {
                None
            }
        } else if s[0] == 0x04u8 && s[1] == 0xF7u8 && s[2] == 0x11u8 {
            if s[3] == 0x01u8 {
                Some(SevenZMethod::ZSTD)
            } else if s[3] == 0x02u8 {
                Some(SevenZMethod::BROTLI)
            } else if s[3] == 0x04u8 {
                Some(SevenZMethod::LZ4)
            } else {
                None
            }
        } else if s[0] == 0x06u8 && s[1] == 0xF1u8 && s[2] == 0x07u8 && s[3] == 0x01u8 {
            Some(SevenZMethod::AES256SHA256)
        } else {
            None
        }
    } else {
        None
    }
}

/// The registry is consistent: looking a method's own ID bytes up finds
/// that method and no other.
pub proof fn lemma_registry_consistent(m: SevenZMethod)
    ensures
        spec_method_by_id(method_id_spec(m)) == Some(m),
{
    match m {
        SevenZMethod::COPY => {
            let s = seq![0x00u8];
            assert(s.len() == 1);
            assert(s[0] == 0x00u8);
            assert(spec_method_by_id(s) == Some(m));
        },
        SevenZMethod::LZMA => {
            let s = seq![0x03u8, 0x01u8, 0x01u8];
            assert(s.len() == 3);
            assert(s[0] == 0x03u8);
            assert(s[1] == 0x01u8);
            assert(s[2] == 0x01u8);
            assert(spec_method_by_id(s) == Some(m));
        },
        SevenZMethod::LZMA2 => {
            let s = seq![0x21u8];
            assert(s.len() == 1);
            assert(s[0] == 0x21u8);
            assert(spec_method_by_id(s) == Some(m));
        },
        SevenZMethod::DELTA => {
            let s = seq![0x03u8];
            assert(s.len() == 1);
            assert(s[0] == 0x03u8);
            assert(spec_method_by_id(s) == Some(m));
        },
        SevenZMethod::BCJ_X86 => {
            let s = seq![0x03u8, 0x03u8, 0x01u8, 0x03u8];
            assert(s.len() == 4);
            assert(s[0] == 0x03u8);
            assert(s[1] == 0x03u8);
            assert(s[2] == 0x01u8);
            assert(s[3] == 0x03u8);
            assert(spec_method_by_id(s) == Some(m));
        },
        SevenZMethod::BCJ_PPC => {
            let s = seq![0x03u8, 0x03u8, 0x02u8, 0x05u8];
            assert(s.len() == 4);
            assert(s[0] == 0x03u8);
            assert(s[1] == 0x03u8);
            assert(s[2] == 0x02u8);
            assert(s[3] == 0x05u8);
            assert(spec_method_by_id(s) == Some(m));
        },
        SevenZMethod::BCJ_IA64 => {
            let s = seq![0x03u8, 0x03u8, 0x03u8, 0x01u8];
            assert(s.len() == 4);
            assert(s[0] == 0x03u8);
            assert(s[1] == 0x03u8);
            assert(s[2] == 0x03u8);
            assert(s[3] == 0x01u8);
            assert(spec_method_by_id(s) == Some(m));
        },
        SevenZMethod::BCJ_ARM => {
            let s = seq![0x03u8, 0x03u8, 0x05u8, 0x01u8];
            assert(s.len() == 4);
            assert(s[0] == 0x03u8);
            assert(s[1] == 0x03u8);
            assert(s[2] == 0x05u8);
            assert(s[3] == 0x01u8);
            assert(spec_method_by_id(s) == Some(m));
        },
        SevenZMethod::BCJ_ARM_THUMB => {
            let s = seq![0x03u8, 0x03u8, 0x07u8, 0x01u8];
            assert(s.len() == 4);
            assert(s[0] == 0x03u8);
            assert(s[1] == 0x03u8);
            assert(s[2] == 0x07u8);
            assert(s[3] == 0x01u8);
            assert(spec_method_by_id(s) == Some(m));
        },
        SevenZMethod::BCJ_SPARC => {
            let s = seq![0x03u8, 0x03u8, 0x08u8, 0x05u8];
            assert(s.len() == 4);
            assert(s[0] == 0x03u8);
            assert(s[1] == 0x03u8);
            assert(s[2] == 0x08u8);
            assert(s[3] == 0x05u8);
            assert(spec_method_by_id(s) == Some(m));
        },
        SevenZMethod::DEFLATE => {
            let s = seq![0x04u8, 0x01u8, 0x08u8];
            assert(s.len() == 3);
            assert(s[0] == 0x04u8);
            assert(s[1] == 0x01u8);
            assert(s[2] == 0x08u8);
            assert(spec_method_by_id(s) == Some(m));
        },
        SevenZMethod::BZIP2 => {
            let s = seq![0x04u8, 0x02u8, 0x02u8];
            assert(s.len() == 3);
            assert(s[0] == 0x04u8);
            assert(s[1] == 0x02u8);
            assert(s[2] == 0x02u8);
            assert(spec_method_by_id(s) == Some(m));
        },
        SevenZMethod::ZSTD => {
            let s = seq![0x04u8, 0xF7u8, 0x11u8, 0x01u8];
            assert(s.len() == 4);
            assert(s[0] == 0x04u8);
            assert(s[1] == 0xF7u8);
            assert(s[2] == 0x11u8);
            assert(s[3] == 0x01u8);
            assert(spec_method_by_id(s) == Some(m));
        },
        SevenZMethod::BROTLI => {
            let s = seq![0x04u8, 0xF7u8, 0x11u8, 0x02u8];
            assert(s.len() == 4);
            assert(s[0] == 0x04u8);
            assert(s[1] == 0xF7u8);
            assert(s[2] == 0x11u8);
            assert(s[3] == 0x02u8);
            assert(spec_method_by_id(s) == Some(m));
        },
        SevenZMethod::LZ4 => {
            let s = seq![0x04u8, 0xF7u8, 0x11u8, 0x04u8];
            assert(s.len() == 4);
            assert(s[0] == 0x04u8);
            assert(s[1] == 0xF7u8);
            assert(s[2] == 0x11u8);
            assert(s[3] == 0x04u8);
            assert(spec_method_by_id(s) == Some(m));
        },
        SevenZMethod::AES256SHA256 => {
            let s = seq![0x06u8, 0xF1u8, 0x07u8, 0x01u8];
            assert(s.len() == 4);
            assert(s[0] == 0x06u8);
            assert(s[1] == 0xF1u8);
            assert(s[2] == 0x07u8);
            assert(s[3] == 0x01u8);
            assert(spec_method_by_id(s) == Some(m));
        },
    }
}

/// Distinct methods have distinct ID bytes.
pub proof fn lemma_method_ids_injective(a: SevenZMethod, b: SevenZMethod)
    ensures
        method_id_spec(a) == method_id_spec(b) ==> a == b,
{
    lemma_registry_consistent(a);
    lemma_registry_consistent(b);
}

impl SevenZMethod {
    /// The method ID as raw bytes.
    pub fn id(&self) -> (r: Vec<u8>)
        ensures
            r@ == method_id_spec(*self),
    {
        match self {
            SevenZMethod::COPY => vec![0x00u8],
            SevenZMethod::LZMA => vec![0x03u8, 0x01u8, 0x01u8],
            SevenZMethod::LZMA2 => vec![0x21u8],
            SevenZMethod::DELTA => vec![0x03u8],
            SevenZMethod::BCJ_X86 => vec![0x03u8, 0x03u8, 0x01u8, 0x03u8],
            SevenZMethod::BCJ_PPC => vec![0x03u8, 0x03u8, 0x02u8, 0x05u8],
            SevenZMethod::BCJ_IA64 => vec![0x03u8, 0x03u8, 0x03u8, 0x01u8],
            SevenZMethod::BCJ_ARM => vec![0x03u8, 0x03u8, 0x05u8, 0x01u8],
            SevenZMethod::BCJ_ARM_THUMB => vec![0x03u8, 0x03u8, 0x07u8, 0x01u8],
            SevenZMethod::BCJ_SPARC => vec![0x03u8, 0x03u8, 0x08u8, 0x05u8],
            SevenZMethod::DEFLATE => vec![0x04u8, 0x01u8, 0x08u8],
            SevenZMethod::BZIP2 => vec![0x04u8, 0x02u8, 0x02u8],
            SevenZMethod::ZSTD => vec![0x04u8, 0xF7u8, 0x11u8, 0x01u8],
            SevenZMethod::BROTLI => vec![0x04u8, 0xF7u8, 0x11u8, 0x02u8],
            SevenZMethod::LZ4 => vec![0x04u8, 0xF7u8, 0x11u8, 0x04u8],
            SevenZMethod::AES256SHA256 => vec![0x06u8, 0xF1u8, 0x07u8, 0x01u8],
        }
    }

    /// The symbolic name.
    pub fn name(&self) -> (r: &'static str)
        ensures
            r@ == method_name_spec(*self),
    {
        match self {
            SevenZMethod::COPY => "COPY",
            SevenZMethod::LZMA => "LZMA",
            SevenZMethod::LZMA2 => "LZMA2",
            SevenZMethod::DELTA => "DELTA",
            SevenZMethod::BCJ_X86 => "BCJ_X86",
            SevenZMethod::BCJ_PPC => "BCJ_PPC",
            SevenZMethod::BCJ_IA64 => "BCJ_IA64",
            SevenZMethod::BCJ_ARM => "BCJ_ARM",
            SevenZMethod::BCJ_ARM_THUMB => "BCJ_ARM_THUMB",
            SevenZMethod::BCJ_SPARC => "BCJ_SPARC",
            SevenZMethod::DEFLATE => "DEFLATE",
            SevenZMethod::BZIP2 => "BZIP2",
            SevenZMethod::ZSTD => "ZSTD",
            SevenZMethod::BROTLI => "BROTLI",
            SevenZMethod::LZ4 => "LZ4",
            SevenZMethod::AES256SHA256 => "AES256SHA256",
        }
    }

    /// The method's role in a chain.
    pub fn kind(&self) -> (r: MethodKind)
        ensures
            r == method_kind_spec(*self),
    {
        match self {
            SevenZMethod::DELTA => MethodKind::Filter,
            SevenZMethod::BCJ_X86 => MethodKind::Filter,
            SevenZMethod::BCJ_PPC => MethodKind::Filter,
            SevenZMethod::BCJ_IA64 => MethodKind::Filter,
            SevenZMethod::BCJ_ARM => MethodKind::Filter,
            SevenZMethod::BCJ_ARM_THUMB => MethodKind::Filter,
            SevenZMethod::BCJ_SPARC => MethodKind::Filter,
            SevenZMethod::AES256SHA256 => MethodKind::Crypto,
            _ => MethodKind::Compressor,
        }
    }
}

/// Look raw ID bytes up in the registry.
pub fn method_by_id(id: &[u8]) -> (r: Option<SevenZMethod>)
    ensures
        r == spec_method_by_id(id@),
{
    if id.len() == 1 {
        if id[0] == 0x00u8 {
            Some(SevenZMethod::COPY)
        } else if id[0] == 0x21u8 {
            Some(SevenZMethod::LZMA2)
        } else if id[0] == 0x03u8 {
            Some(SevenZMethod::DELTA)
        } else {
            None
        }
    } else if id.len() == 3 {
        if id[0] == 0x03u8 && id[1] == 0x01u8 && id[2] == 0x01u8 {
            Some(SevenZMethod::LZMA)
        } else if id[0] == 0x04u8 && id[1] == 0x01u8 && id[2] == 0x08u8 {
            Some(SevenZMethod::DEFLATE)
        } else if id[0] == 0x04u8 && id[1] == 0x02u8 && id[2] == 0x02u8 {
            Some(SevenZMethod::BZIP2)
        } else {
            None
        }
    } else if id.len() == 4 {
        if id[0] == 0x03u8 && id[1] == 0x03u8 {
            if id[2] == 0x01u8 && id[3] == 0x03u8 {
                Some(SevenZMethod::BCJ_X86)
            } else if id[2] == 0x02u8 && id[3] == 0x05u8 {
                Some(SevenZMethod::BCJ_PPC)
            } else if id[2] == 0x03u8 && id[3] == 0x01u8 {
                Some(SevenZMethod::BCJ_IA64)
            } else if id[2] == 0x05u8 && id[3] == 0x01u8 {
                Some(SevenZMethod::BCJ_ARM)
            } else if id[2] == 0x07u8 && id[3] == 0x01u8 {
                Some(SevenZMethod::BCJ_ARM_THUMB)
            } else if id[2] == 0x08u8 && id[3] == 0x05u8 {
                Some(SevenZMethod::BCJ_SPARC)
            } else {
                None
            }
        } else if id[0] == 0x04u8 && id[1] == 0xF7u8 && id[2] == 0x11u8 {
            if id[3] == 0x01u8 {
                Some(SevenZMethod::ZSTD)
            } else if id[3] == 0x02u8 {
                Some(SevenZMethod::BROTLI)
            } else if id[3] == 0x04u8 {
                Some(SevenZMethod::LZ4)
            } else {
                None
            }
        } else if id[0] == 0x06u8 && id[1] == 0xF1u8 && id[2] == 0x07u8 && id[3] == 0x01u8 {
            Some(SevenZMethod::AES256SHA256)
        } else {
            None
        }
    } else {
        None
    }
}

} // verus!
