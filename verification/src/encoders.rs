//! The writer-side encoder chain: a counting byte sink, one encoder per
//! method of the registry's compressor subset, and the dispatch that
//! builds an encoder from a method configuration.

use vstd::prelude::*;
use crate::aes::aes256_cbc_of;
use crate::aes::derived_key_spec;
use crate::aes::zero_padded;
use crate::codecs::brotli_compress;
use crate::codecs::brotli_of;
use crate::codecs::bzip2_compress;
use crate::codecs::bzip2_of;
use crate::codecs::deflate_compress;
use crate::codecs::deflate_of;
use crate::codecs::lz4_compress;
use crate::codecs::lz4_of;
use crate::codecs::lzma2_compress;
use crate::codecs::lzma2_of;
use crate::codecs::lzma_compress;
use crate::codecs::lzma_of;
use crate::codecs::zstd_compress;
use crate::codecs::zstd_of;
use crate::error::Error;
use crate::method::SevenZMethod;
use crate::method::method_name_spec;
use crate::options::AesOptions;
use crate::options::LZMA2Options;
use crate::options::MethodOptions;
use crate::options::SevenZMethodConfiguration;
use crate::options::valid_dict_size;
use crate::options::get_lzma2_options;
use crate::options::lzma2_defaults;
use crate::options::lzma2_options_of;
use crate::util::clone_bytes;
use crate::util::push_all;

verus! {

/// A byte sink that keeps what was written and its count. The writer
/// points one at the packed region of the backing file.
pub struct CountingWriter {
    data: Vec<u8>,
}

impl View for CountingWriter {
    type V = Seq<u8>;

    closed spec fn view(&self) -> Seq<u8> {
        self.data@
    }
}

impl CountingWriter {
    /// An empty sink.
    pub fn new() -> (w: Self)
        ensures
            w@ == Seq::<u8>::empty(),
    {
        CountingWriter { data: Vec::new() }
    }

    /// Append `buf` whole; the full length is always accepted.
    pub fn write(&mut self, buf: &[u8]) -> (r: Result<usize, Error>)
        ensures
            final(self)@ == old(self)@ + buf@,
            r matches Ok(n) && n == buf@.len(),
    {
        push_all(&mut self.data, buf);
        Ok(buf.len())
    }

    /// How many bytes have been written.
    pub fn writed_bytes(&self) -> (n: usize)
        ensures
            n == self@.len(),
    {
        self.data.len()
    }

    /// The written bytes.
    pub fn into_bytes(self) -> (r: Vec<u8>)
        ensures
            r@ == self@,
    {
        self.data
    }
}

/// One encoding stage over a counting sink. COPY passes bytes straight
/// through; every other method buffers its input and emits the packed
/// stream when the stage is finished.
pub enum Encoder {
    COPY(CountingWriter),
    LZMA { sink: CountingWriter, opts: LZMA2Options, buf: Vec<u8> },
    LZMA2 { sink: CountingWriter, opts: LZMA2Options, buf: Vec<u8> },
    BROTLI { sink: CountingWriter, quality: u32, window: u32, buf: Vec<u8> },
    BZIP2 { sink: CountingWriter, level: u32, buf: Vec<u8> },
    DEFLATE { sink: CountingWriter, level: u32, buf: Vec<u8> },
    LZ4 { sink: CountingWriter, buf: Vec<u8> },
    ZSTD { sink: CountingWriter, level: u32, buf: Vec<u8> },
    AES { sink: CountingWriter, opts: AesOptions, buf: Vec<u8> },
}

/// Two stages with the same method and the same options.
pub open spec fn same_config(a: Encoder, b: Encoder) -> bool {
    match a {
        Encoder::COPY(_) => b is COPY,
        Encoder::LZMA { opts: o1, .. } => b matches Encoder::LZMA { opts: o2, .. } && o1 == o2,
        Encoder::LZMA2 { opts: o1, .. } => b matches Encoder::LZMA2 { opts: o2, .. } && o1 == o2,
        Encoder::BROTLI { quality: q1, window: w1, .. } => b matches Encoder::BROTLI {
            quality: q2,
            window: w2,
            ..
        } && q1 == q2 && w1 == w2,
        Encoder::BZIP2 { level: l1, .. } => b matches Encoder::BZIP2 { level: l2, .. } && l1 == l2,
        Encoder::DEFLATE { level: l1, .. } => b matches Encoder::DEFLATE { level: l2, .. } && l1
            == l2,
        Encoder::LZ4 { .. } => b is LZ4,
        Encoder::ZSTD { level: l1, .. } => b matches Encoder::ZSTD { level: l2, .. } && l1 == l2,
        Encoder::AES { opts: o1, .. } => b matches Encoder::AES { opts: o2, .. } && o1 == o2,
    }
}

impl Encoder {
    /// What the underlying sink holds.
    pub open spec fn sink_bytes(self) -> Seq<u8> {
        match self {
            Encoder::COPY(w) => w@,
            Encoder::LZMA { sink, .. } => sink@,
            Encoder::LZMA2 { sink, .. } => sink@,
            Encoder::BROTLI { sink, .. } => sink@,
            Encoder::BZIP2 { sink, .. } => sink@,
            Encoder::DEFLATE { sink, .. } => sink@,
            Encoder::LZ4 { sink, .. } => sink@,
            Encoder::ZSTD { sink, .. } => sink@,
            Encoder::AES { sink, .. } => sink@,
        }
    }

    /// Input accepted but not yet turned into packed bytes.
    pub open spec fn pending(self) -> Seq<u8> {
        match self {
            Encoder::COPY(_) => Seq::empty(),
            Encoder::LZMA { buf, .. } => buf@,
            Encoder::LZMA2 { buf, .. } => buf@,
            Encoder::BROTLI { buf, .. } => buf@,
            Encoder::BZIP2 { buf, .. } => buf@,
            Encoder::DEFLATE { buf, .. } => buf@,
            Encoder::LZ4 { buf, .. } => buf@,
            Encoder::ZSTD { buf, .. } => buf@,
            Encoder::AES { buf, .. } => buf@,
        }
    }

    /// The packed bytes the pending input turns into when the stage is
    /// finished. COPY has none pending: its sink already holds them.
    pub open spec fn packed_pending(self) -> Seq<u8> {
        match self {
            Encoder::COPY(_) => Seq::empty(),
            Encoder::LZMA { opts, buf, .. } => lzma_of(buf@, opts.dict_size, opts.lc, opts.lp, opts.pb),
            Encoder::LZMA2 { opts, buf, .. } => lzma2_of(
                buf@,
                opts.dict_size,
                opts.lc,
                opts.lp,
                opts.pb,
            ),
            Encoder::BROTLI { quality, window, buf, .. } => brotli_of(buf@, quality, window),
            Encoder::BZIP2 { level, buf, .. } => bzip2_of(buf@, level),
            Encoder::DEFLATE { level, buf, .. } => deflate_of(buf@, level),
            Encoder::LZ4 { buf, .. } => lz4_of(buf@),
            Encoder::ZSTD { level, buf, .. } => zstd_of(buf@, level),
            Encoder::AES { opts, buf, .. } => aes256_cbc_of(
                derived_key_spec(opts.password@, opts.num_cycles_power),
                opts.iv@,
                zero_padded(buf@),
            ),
        }
    }

    /// The stage's options are inside the ranges its method recognizes,
    /// which for LZMA and LZMA2 also keeps the codec's tables in range.
    pub open spec fn options_ok(self) -> bool {
        match self {
            Encoder::LZMA { opts, .. } => opts.lc <= 8 && opts.lp <= 4 && opts.pb <= 4
                && opts.lc + opts.lp <= 4 && valid_dict_size(opts.dict_size),
            Encoder::LZMA2 { opts, .. } => opts.lc <= 8 && opts.lp <= 4 && opts.pb <= 4
                && opts.lc + opts.lp <= 4 && valid_dict_size(opts.dict_size),
            Encoder::BROTLI { quality, window, .. } => quality <= 11 && 10 <= window <= 24,
            Encoder::BZIP2 { level, .. } => 1 <= level <= 9,
            Encoder::DEFLATE { level, .. } => level <= 9,
            Encoder::ZSTD { level, .. } => 1 <= level <= 22,
            Encoder::AES { opts, .. } => opts.wf() && opts.derivation_feasible(),
            _ => true,
        }
    }

    /// Accept `buf` whole: COPY writes it through to the sink, every other
    /// method adds it to the pending input. Always succeeds with the full
    /// length.
    pub fn write(&mut self, buf: &[u8]) -> (r: Result<usize, Error>)
        ensures
            r matches Ok(n) && n == buf@.len(),
            (*old(self)) is COPY ==> final(self).sink_bytes() == old(self).sink_bytes() + buf@,
            !((*old(self)) is COPY) ==> final(self).sink_bytes() == old(self).sink_bytes(),
            final(self).pending() == old(self).pending() + (if (*old(self)) is COPY {
                Seq::<u8>::empty()
            } else {
                buf@
            }),
            final(self).packed_pending() == (if (*old(self)) is COPY {
                Seq::<u8>::empty()
            } else {
                old(self).with_pending(old(self).pending() + buf@)
            }),
            final(self).options_ok() == old(self).options_ok(),
            same_config(*old(self), *final(self)),
    {
        match self {
            Encoder::COPY(w) => w.write(buf),
            Encoder::LZMA { buf: b, .. } => {
                push_all(b, buf);
                Ok(buf.len())
            },
            Encoder::LZMA2 { buf: b, .. } => {
                push_all(b, buf);
                Ok(buf.len())
            },
            Encoder::BROTLI { buf: b, .. } => {
                push_all(b, buf);
                Ok(buf.len())
            },
            Encoder::BZIP2 { buf: b, .. } => {
                push_all(b, buf);
                Ok(buf.len())
            },
            Encoder::DEFLATE { buf: b, .. } => {
                push_all(b, buf);
                Ok(buf.len())
            },
            Encoder::LZ4 { buf: b, .. } => {
                push_all(b, buf);
                Ok(buf.len())
            },
            Encoder::ZSTD { buf: b, .. } => {
                push_all(b, buf);
                Ok(buf.len())
            },
            Encoder::AES { buf: b, .. } => {
                push_all(b, buf);
                Ok(buf.len())
            },
        }
    }

    /// The packed form of `input` under this stage's method and options.
    pub open spec fn with_pending(self, input: Seq<u8>) -> Seq<u8> {
        match self {
            Encoder::COPY(_) => Seq::empty(),
            Encoder::LZMA { opts, .. } => lzma_of(input, opts.dict_size, opts.lc, opts.lp, opts.pb),
            Encoder::LZMA2 { opts, .. } => lzma2_of(
                input,
                opts.dict_size,
                opts.lc,
                opts.lp,
                opts.pb,
            ),
            Encoder::BROTLI { quality, window, .. } => brotli_of(input, quality, window),
            Encoder::BZIP2 { level, .. } => bzip2_of(input, level),
            Encoder::DEFLATE { level, .. } => deflate_of(input, level),
            Encoder::LZ4 { .. } => lz4_of(input),
            Encoder::ZSTD { level, .. } => zstd_of(input, level),
            Encoder::AES { opts, .. } => aes256_cbc_of(
                derived_key_spec(opts.password@, opts.num_cycles_power),
                opts.iv@,
                zero_padded(input),
            ),
        }
    }

    /// Nothing to do: COPY is unbuffered and the other stages pack only
    /// when finished, so flushing changes nothing.
    pub fn flush(&mut self) -> (r: Result<(), Error>)
        ensures
            *final(self) == *old(self),
            r matches Ok(u) && u == (),
    {
        Ok(())
    }

    /// Close the stage: pack any pending input onto the sink and hand the
    /// sink back.
    pub fn finish(self) -> (r: Result<CountingWriter, Error>)
        requires
            self.options_ok(),
        ensures
            r is Ok,
            r matches Ok(w) ==> w@ == self.sink_bytes() + self.packed_pending(),
    {
        match self {
            Encoder::COPY(w) => {
                proof {
                    assert(w@ + Seq::<u8>::empty() =~= w@);
                }
                Ok(w)
            },
            Encoder::LZMA { mut sink, opts, buf } => {
                match lzma_compress(buf.as_slice(), opts.dict_size, opts.lc, opts.lp, opts.pb) {
                    Ok(packed) => {
                        let _ = sink.write(packed.as_slice());
                        Ok(sink)
                    },
                    Err(e) => Err(e),
                }
            },
            Encoder::LZMA2 { mut sink, opts, buf } => {
                match lzma2_compress(buf.as_slice(), opts.dict_size, opts.lc, opts.lp, opts.pb) {
                    Ok(packed) => {
                        let _ = sink.write(packed.as_slice());
                        Ok(sink)
                    },
                    Err(e) => Err(e),
                }
            },
            Encoder::BROTLI { mut sink, quality, window, buf } => {
                match brotli_compress(buf.as_slice(), quality, window) {
                    Ok(packed) => {
                        let _ = sink.write(packed.as_slice());
                        Ok(sink)
                    },
                    Err(e) => Err(e),
                }
            },
            Encoder::BZIP2 { mut sink, level, buf } => {
                match bzip2_compress(buf.as_slice(), level) {
                    Ok(packed) => {
                        let _ = sink.write(packed.as_slice());
                        Ok(sink)
                    },
                    Err(e) => Err(e),
                }
            },
            Encoder::DEFLATE { mut sink, level, buf } => {
                match deflate_compress(buf.as_slice(), level) {
                    Ok(packed) => {
                        let _ = sink.write(packed.as_slice());
                        Ok(sink)
                    },
                    Err(e) => Err(e),
                }
            },
            Encoder::LZ4 { mut sink, buf } => {
                match lz4_compress(buf.as_slice()) {
                    Ok(packed) => {
                        let _ = sink.write(packed.as_slice());
                        Ok(sink)
                    },
                    Err(e) => Err(e),
                }
            },
            Encoder::ZSTD { mut sink, level, buf } => {
                match zstd_compress(buf.as_slice(), level) {
                    Ok(packed) => {
                        let _ = sink.write(packed.as_slice());
                        Ok(sink)
                    },
                    Err(e) => Err(e),
                }
            },
            Encoder::AES { mut sink, opts, buf } => {
                let packed = opts.encrypt_stream(buf.as_slice());
                let _ = sink.write(packed.as_slice());
                Ok(sink)
            },
        }
    }
}

/// Build the encoder stage for one method configuration over `input`:
/// COPY, the compressor methods and the AES layer get a stage with an
/// empty pending buffer and the options the configuration resolves to;
/// the filter methods are not writable here and are refused; an AES
/// layer without a password is refused as such.
pub fn add_encoder(input: CountingWriter, method_config: &SevenZMethodConfiguration) -> (r: Result<
    Encoder,
    Error,
>)
    ensures
        match method_config.method {
            SevenZMethod::COPY => r matches Ok(e) && e matches Encoder::COPY(w) && w == input,
            SevenZMethod::LZMA => r matches Ok(e) && (e matches Encoder::LZMA { sink, opts, buf }
                && sink == input && opts == lzma2_options_of(
                method_config.options,
                lzma2_defaults(),
            ) && buf@ == Seq::<u8>::empty()),
            SevenZMethod::LZMA2 => r matches Ok(e) && (e matches Encoder::LZMA2 { sink, opts, buf }
                && sink == input && opts == lzma2_options_of(
                method_config.options,
                lzma2_defaults(),
            ) && buf@ == Seq::<u8>::empty()),
            SevenZMethod::BROTLI => r matches Ok(e) && (e matches Encoder::BROTLI {
                sink,
                quality,
                window,
                buf,
            } && sink == input && buf@ == Seq::<u8>::empty() && (match method_config.options {
                Some(MethodOptions::BROTLI(b)) => quality == b.quality && window == b.window,
                _ => quality == 11 && window == 22,
            })),
            SevenZMethod::BZIP2 => r matches Ok(e) && (e matches Encoder::BZIP2 {
                sink,
                level,
                buf,
            } && sink == input && buf@ == Seq::<u8>::empty() && level == (
            match method_config.options {
                Some(MethodOptions::BZIP2(o)) => o.0,
                _ => 6u32,
            })),
            SevenZMethod::DEFLATE => r matches Ok(e) && (e matches Encoder::DEFLATE {
                sink,
                level,
                buf,
            } && sink == input && buf@ == Seq::<u8>::empty() && level == (
            match method_config.options {
                Some(MethodOptions::DEFLATE(o)) => o.0,
                _ => 6u32,
            })),
            SevenZMethod::LZ4 => r matches Ok(e) && (e matches Encoder::LZ4 { sink, buf } && sink
                == input && buf@ == Seq::<u8>::empty()),
            SevenZMethod::ZSTD => r matches Ok(e) && (e matches Encoder::ZSTD { sink, level, buf }
                && sink == input && buf@ == Seq::<u8>::empty() && level == (
            match method_config.options {
                Some(MethodOptions::ZSTD(o)) => o.0,
                _ => 3u32,
            })),
            SevenZMethod::AES256SHA256 => (match method_config.options {
                Some(MethodOptions::Aes(a)) => r matches Ok(e) && (e matches Encoder::AES {
                    sink,
                    opts,
                    buf,
                } && sink == input && buf@ == Seq::<u8>::empty() && opts.password@ == a.password@
                    && opts.salt@ == a.salt@ && opts.iv@ == a.iv@ && opts.num_cycles_power
                    == a.num_cycles_power),
                _ => r matches Err(e) && e is PasswordRequired,
            }),
            _ => r matches Err(e) && e matches Error::UnsupportedCompressionMethod(s) && s@
                == method_name_spec(method_config.method),
        },
{
    let method = method_config.method;
    match method {
        SevenZMethod::COPY => Ok(Encoder::COPY(input)),
        SevenZMethod::LZMA => {
            let mut def_opts = LZMA2Options::default();
            let opts = get_lzma2_options(method_config.options.as_ref(), &mut def_opts);
            Ok(Encoder::LZMA { sink: input, opts, buf: Vec::new() })
        },
        SevenZMethod::LZMA2 => {
            let mut def_opts = LZMA2Options::default();
            let opts = get_lzma2_options(method_config.options.as_ref(), &mut def_opts);
            Ok(Encoder::LZMA2 { sink: input, opts, buf: Vec::new() })
        },
        SevenZMethod::BROTLI => {
            let (quality, window) = match &method_config.options {
                Some(MethodOptions::BROTLI(b)) => (b.quality, b.window),
                _ => (11, 22),
            };
            Ok(Encoder::BROTLI { sink: input, quality, window, buf: Vec::new() })
        },
        SevenZMethod::BZIP2 => {
            let level = match &method_config.options {
                Some(MethodOptions::BZIP2(o)) => o.0,
                _ => 6,
            };
            Ok(Encoder::BZIP2 { sink: input, level, buf: Vec::new() })
        },
        SevenZMethod::DEFLATE => {
            let level = match &method_config.options {
                Some(MethodOptions::DEFLATE(o)) => o.0,
                _ => 6,
            };
            Ok(Encoder::DEFLATE { sink: input, level, buf: Vec::new() })
        },
        SevenZMethod::LZ4 => Ok(Encoder::LZ4 { sink: input, buf: Vec::new() }),
        SevenZMethod::ZSTD => {
            let level = match &method_config.options {
                Some(MethodOptions::ZSTD(o)) => o.0,
                _ => 3,
            };
            Ok(Encoder::ZSTD { sink: input, level, buf: Vec::new() })
        },
        SevenZMethod::AES256SHA256 => {
            match &method_config.options {
                Some(MethodOptions::Aes(a)) => Ok(
                    Encoder::AES {
                        sink: input,
                        opts: AesOptions {
                            password: clone_bytes(&a.password),
                            salt: clone_bytes(&a.salt),
                            iv: clone_bytes(&a.iv),
                            num_cycles_power: a.num_cycles_power,
                        },
                        buf: Vec::new(),
                    },
                ),
                _ => Err(Error::PasswordRequired),
            }
        },
        _ => Err(Error::UnsupportedCompressionMethod(method.name().to_owned())),
    }
}

} // verus!
