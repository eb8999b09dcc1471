//! The codec chain: a folder's stages composed in series, outermost
//! first, over one packed output stream.

use vstd::prelude::*;
use crate::aes::aes256_cbc_of;
use crate::aes::derived_key_spec;
use crate::aes::zero_padded;
use crate::codecs::brotli_of;
use crate::codecs::bzip2_of;
use crate::codecs::deflate_of;
use crate::codecs::lz4_of;
use crate::codecs::lzma2_of;
use crate::codecs::lzma_of;
use crate::codecs::zstd_of;
use crate::encoders::CountingWriter;
use crate::encoders::Encoder;
use crate::encoders::add_encoder;
use crate::error::Error;
use crate::method::SevenZMethod;
use crate::options::LZMA2Options;
use crate::options::MethodOptions;
use crate::options::SevenZMethodConfiguration;
use crate::options::lzma2_defaults;
use crate::options::get_lzma2_options;
use crate::options::is_valid_dict_size;
use crate::options::lzma2_options_of;
use crate::options::valid_dict_size;
use vstd::slice::slice_to_vec;

verus! {

/// What one stage turns its input into.
pub open spec fn stage_packed_spec(data: Seq<u8>, cfg: SevenZMethodConfiguration) -> Seq<u8> {
    match cfg.method {
        SevenZMethod::COPY => data,
        SevenZMethod::LZMA => {
            let o = lzma2_options_of(cfg.options, lzma2_defaults());
            lzma_of(data, o.dict_size, o.lc, o.lp, o.pb)
        },
        SevenZMethod::LZMA2 => {
            let o = lzma2_options_of(cfg.options, lzma2_defaults());
            lzma2_of(data, o.dict_size, o.lc, o.lp, o.pb)
        },
        SevenZMethod::BROTLI => match cfg.options {
            Some(MethodOptions::BROTLI(b)) => brotli_of(data, b.quality, b.window),
            _ => brotli_of(data, 11, 22),
        },
        SevenZMethod::BZIP2 => match cfg.options {
            Some(MethodOptions::BZIP2(o)) => bzip2_of(data, o.0),
            _ => bzip2_of(data, 6),
        },
        SevenZMethod::DEFLATE => match cfg.options {
            Some(MethodOptions::DEFLATE(o)) => deflate_of(data, o.0),
            _ => deflate_of(data, 6),
        },
        SevenZMethod::LZ4 => lz4_of(data),
        SevenZMethod::ZSTD => match cfg.options {
            Some(MethodOptions::ZSTD(o)) => zstd_of(data, o.0),
            _ => zstd_of(data, 3),
        },
        SevenZMethod::AES256SHA256 => match cfg.options {
            Some(MethodOptions::Aes(a)) => aes256_cbc_of(
                derived_key_spec(a.password@, a.num_cycles_power),
                a.iv@,
                zero_padded(data),
            ),
            _ => data,
        },
        _ => data,
    }
}

/// A stage this writer can drive: a compressor or COPY, with options in
/// the ranges the method recognizes.
pub open spec fn stage_ok(cfg: SevenZMethodConfiguration) -> bool {
    match cfg.method {
        SevenZMethod::COPY => true,
        SevenZMethod::LZMA => lzma_stage_ok(cfg),
        SevenZMethod::LZMA2 => lzma_stage_ok(cfg),
        SevenZMethod::BROTLI => match cfg.options {
            Some(MethodOptions::BROTLI(b)) => b.quality <= 11 && 10 <= b.window <= 24,
            _ => true,
        },
        SevenZMethod::BZIP2 => match cfg.options {
            Some(MethodOptions::BZIP2(o)) => 1 <= o.0 <= 9,
            _ => true,
        },
        SevenZMethod::DEFLATE => match cfg.options {
            Some(MethodOptions::DEFLATE(o)) => o.0 <= 9,
            _ => true,
        },
        SevenZMethod::LZ4 => true,
        SevenZMethod::ZSTD => match cfg.options {
            Some(MethodOptions::ZSTD(o)) => 1 <= o.0 <= 22,
            _ => true,
        },
        SevenZMethod::AES256SHA256 => match cfg.options {
            Some(MethodOptions::Aes(a)) => a.wf() && a.derivation_feasible(),
            _ => false,
        },
        _ => false,
    }
}

/// The LZMA options a stage resolves to are inside the ranges the codec
/// and the format accept: the literal/position fields fit the properties
/// byte with `lc + lp` at most 4, and the dictionary size sits on the
/// encodable 4 KiB..=1.5 GiB lattice.
pub open spec fn lzma_stage_ok(cfg: SevenZMethodConfiguration) -> bool {
    let o = lzma2_options_of(cfg.options, lzma2_defaults());
    o.lc <= 8 && o.lp <= 4 && o.pb <= 4 && o.lc + o.lp <= 4 && valid_dict_size(o.dict_size)
}

/// Whether a configuration is a stage this writer can drive: the runtime
/// form of `stage_ok`, for callers that take configurations at run time.
pub fn is_stage_ok(cfg: &SevenZMethodConfiguration) -> (b: bool)
    ensures
        b == stage_ok(*cfg),
{
    match cfg.method {
        SevenZMethod::COPY => true,
        SevenZMethod::LZMA => is_lzma_stage_ok(cfg),
        SevenZMethod::LZMA2 => is_lzma_stage_ok(cfg),
        SevenZMethod::BROTLI => match &cfg.options {
            Some(MethodOptions::BROTLI(b)) => b.quality <= 11 && 10 <= b.window && b.window <= 24,
            _ => true,
        },
        SevenZMethod::BZIP2 => match &cfg.options {
            Some(MethodOptions::BZIP2(o)) => 1 <= o.0 && o.0 <= 9,
            _ => true,
        },
        SevenZMethod::DEFLATE => match &cfg.options {
            Some(MethodOptions::DEFLATE(o)) => o.0 <= 9,
            _ => true,
        },
        SevenZMethod::LZ4 => true,
        SevenZMethod::ZSTD => match &cfg.options {
            Some(MethodOptions::ZSTD(o)) => 1 <= o.0 && o.0 <= 22,
            _ => true,
        },
        SevenZMethod::AES256SHA256 => match &cfg.options {
            Some(MethodOptions::Aes(a)) => a.is_usable(),
            _ => false,
        },
        _ => false,
    }
}

/// The runtime form of `lzma_stage_ok`.
fn is_lzma_stage_ok(cfg: &SevenZMethodConfiguration) -> (b: bool)
    ensures
        b == lzma_stage_ok(*cfg),
{
    let mut defaults = LZMA2Options::default();
    let o = get_lzma2_options(cfg.options.as_ref(), &mut defaults);
    o.lc <= 8 && o.lp <= 4 && o.pb <= 4 && o.lc + o.lp <= 4 && is_valid_dict_size(o.dict_size)
}

/// Every stage of the chain is one this writer can drive.
pub open spec fn chain_ok(chain: Seq<SevenZMethodConfiguration>) -> bool {
    forall|i: int| 0 <= i < chain.len() ==> #[trigger] stage_ok(chain[i])
}

/// The packed bytes of `data` under a whole chain, outermost stage
/// first: the last stage packs what the stages before it produced.
pub open spec fn chain_packed_spec(data: Seq<u8>, chain: Seq<SevenZMethodConfiguration>) -> Seq<u8>
    decreases chain.len(),
{
    if chain.len() == 0 {
        data
    } else {
        stage_packed_spec(chain_packed_spec(data, chain.drop_last()), chain.last())
    }
}

/// A chain of COPY stages packs every input to itself.
pub proof fn lemma_copy_chain_identity(data: Seq<u8>, chain: Seq<SevenZMethodConfiguration>)
    requires
        forall|i: int| 0 <= i < chain.len() ==> #[trigger] chain[i].method is COPY,
    ensures
        chain_packed_spec(data, chain) == data,
    decreases chain.len(),
{
    if chain.len() > 0 {
        lemma_copy_chain_identity(data, chain.drop_last());
    }
}

/// Drive `data` through every stage of `chain` in series and return the
/// packed stream.
pub fn pack_chain(data: &[u8], chain: &Vec<SevenZMethodConfiguration>) -> (r: Result<Vec<u8>, Error>)
    requires
        chain_ok(chain@),
    ensures
        r is Ok,
        r matches Ok(v) ==> v@ == chain_packed_spec(data@, chain@),
{
    let mut cur: Vec<u8> = slice_to_vec(data);
    let mut i: usize = 0;
    proof {
        assert(chain@.take(0) =~= Seq::<SevenZMethodConfiguration>::empty());
    }
    while i < chain.len()
        invariant
            0 <= i <= chain@.len(),
            chain_ok(chain@),
            cur@ == chain_packed_spec(data@, chain@.take(i as int)),
        decreases chain@.len() - i,
    {
        let cfg = &chain[i];
        let mut enc = match add_encoder(CountingWriter::new(), cfg) {
            Ok(e) => e,
            Err(e) => {
                proof {
                    assert(stage_ok(chain@[i as int]));
                }
                return Err(e);
            },
        };
        proof {
            assert(stage_ok(chain@[i as int]));
            assert(enc.options_ok());
            assert(enc.sink_bytes() =~= Seq::<u8>::empty());
            assert(enc.pending() =~= Seq::<u8>::empty());
        }
        let res = enc.write(cur.as_slice());
        if res.is_err() {
            return Err(Error::Io);
        }
        proof {
            assert(Seq::<u8>::empty() + cur@ =~= cur@);
        }
        let w = match enc.finish() {
            Ok(w) => w,
            Err(e) => return Err(e),
        };
        proof {
            assert(w@ =~= stage_packed_spec(cur@, chain@[i as int]));
        }
        cur = w.into_bytes();
        i = i + 1;
        proof {
            assert(chain@.take(i as int).drop_last() =~= chain@.take(i as int - 1));
            assert(chain@.take(i as int).last() == chain@[i as int - 1]);
        }
    }
    proof {
        assert(chain@.take(chain@.len() as int) =~= chain@);
    }
    Ok(cur)
}

} // verus!
