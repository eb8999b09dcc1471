//! The writer-side folder state: entries pushed in order into one codec
//! stage, their sizes, CRCs and positions recorded, the folder's packed
//! stream and CRC produced at the end.

use vstd::prelude::*;
use crate::chain::stage_packed_spec;
use crate::chain::stage_ok;
use crate::crc32::crc32;
use crate::crc32::crc32_fold;
use crate::crc32::crc32_spec;
use crate::crc32::crc32_update;
use crate::crc32::lemma_crc32_fold_concat;
use crate::crc32::lemma_crc32_spec_is_fold;
use crate::encoders::CountingWriter;
use crate::encoders::Encoder;
use crate::encoders::add_encoder;
use crate::error::Error;
use crate::method::SevenZMethod;
use crate::options::MethodOptions;
use crate::options::SevenZMethodConfiguration;
use crate::options::lzma2_defaults;
use crate::options::lzma2_options_of;

verus! {

/// One archive entry as the writer records it.
#[derive(Clone, Debug, PartialEq, Eq)]
pub struct FileEntry {
    pub name: String,
    pub size: u64,
    pub crc: Option<u32>,
    pub is_directory: bool,
    pub is_anti: bool,
    pub is_empty_stream: bool,
    pub is_empty_file: bool,
    pub start_pos_in_folder: u64,
}

/// The sizes of all entries, added up.
pub open spec fn sum_sizes(files: Seq<FileEntry>) -> int
    decreases files.len(),
{
    if files.len() == 0 {
        0
    } else {
        sum_sizes(files.drop_last()) + files.last().size
    }
}

/// The encoder stage carries the method and options of `cfg`.
pub open spec fn encoder_matches(e: Encoder, cfg: SevenZMethodConfiguration) -> bool {
    match cfg.method {
        SevenZMethod::COPY => e is COPY,
        SevenZMethod::LZMA => e matches Encoder::LZMA { opts, .. } && opts == lzma2_options_of(
            cfg.options,
            lzma2_defaults(),
        ),
        SevenZMethod::LZMA2 => e matches Encoder::LZMA2 { opts, .. } && opts == lzma2_options_of(
            cfg.options,
            lzma2_defaults(),
        ),
        SevenZMethod::BROTLI => e matches Encoder::BROTLI { quality, window, .. } && (
        match cfg.options {
            Some(MethodOptions::BROTLI(b)) => quality == b.quality && window == b.window,
            _ => quality == 11 && window == 22,
        }),
        SevenZMethod::BZIP2 => e matches Encoder::BZIP2 { level, .. } && level == (
        match cfg.options {
            Some(MethodOptions::BZIP2(o)) => o.0,
            _ => 6u32,
        }),
        SevenZMethod::DEFLATE => e matches Encoder::DEFLATE { level, .. } && level == (
        match cfg.options {
            Some(MethodOptions::DEFLATE(o)) => o.0,
            _ => 6u32,
        }),
        SevenZMethod::LZ4 => e is LZ4,
        SevenZMethod::ZSTD => e matches Encoder::ZSTD { level, .. } && level == (
        match cfg.options {
            Some(MethodOptions::ZSTD(o)) => o.0,
            _ => 3u32,
        }),
        SevenZMethod::AES256SHA256 => e matches Encoder::AES { opts, .. } && (match cfg.options {
            Some(MethodOptions::Aes(a)) => opts.password@ == a.password@ && opts.salt@ == a.salt@
                && opts.iv@ == a.iv@ && opts.num_cycles_power == a.num_cycles_power,
            _ => false,
        }),
        _ => false,
    }
}

/// What the stage has been fed: COPY keeps it in the sink, the buffering
/// stages keep it pending.
pub open spec fn fed(e: Encoder) -> Seq<u8> {
    if e is COPY {
        e.sink_bytes()
    } else {
        e.pending()
    }
}

/// A folder in the making: one codec stage, the entries pushed so far in
/// order, and the running totals over the uncompressed content.
pub struct FolderWriter {
    enc: Encoder,
    files: Vec<FileEntry>,
    total: u64,
    crc_state: u32,
    cfg: Ghost<SevenZMethodConfiguration>,
    content: Ghost<Seq<u8>>,
}

impl FolderWriter {
    /// The concatenated uncompressed content of the folder.
    pub closed spec fn content_bytes(self) -> Seq<u8> {
        self.content@
    }

    /// The configuration the folder packs under.
    pub closed spec fn config(self) -> SevenZMethodConfiguration {
        self.cfg@
    }

    /// The entries recorded so far.
    pub closed spec fn entries(self) -> Seq<FileEntry> {
        self.files@
    }

    /// The folder's running state is consistent: the totals and the CRC
    /// register follow the content, the entry sizes add up to the
    /// content's length, and the stage has been fed exactly the content.
    pub closed spec fn wf(self) -> bool {
        &&& self.total == self.content@.len()
        &&& self.crc_state == crc32_fold(0xFFFFFFFFu32, self.content@)
        &&& sum_sizes(self.files@) == self.content@.len()
        &&& fed(self.enc) == self.content@
        &&& encoder_matches(self.enc, self.cfg@)
        &&& self.enc.options_ok()
        &&& stage_ok(self.cfg@)
        &&& !(self.enc is COPY) ==> self.enc.sink_bytes() == Seq::<u8>::empty()
    }

    /// Open a folder over one method configuration.
    pub fn new(method_config: &SevenZMethodConfiguration) -> (r: Result<FolderWriter, Error>)
        requires
            stage_ok(*method_config),
        ensures
            r is Ok,
            r matches Ok(fw) ==> fw.wf() && fw.entries() == Seq::<FileEntry>::empty()
                && fw.content_bytes() == Seq::<u8>::empty() && fw.config() == *method_config,
    {
        let enc = match add_encoder(CountingWriter::new(), method_config) {
            Ok(e) => e,
            Err(e) => return Err(e),
        };
        let fw = FolderWriter {
            enc,
            files: Vec::new(),
            total: 0,
            crc_state: 0xFFFFFFFFu32,
            cfg: Ghost(*method_config),
            content: Ghost(Seq::empty()),
        };
        Ok(fw)
    }

    /// Record one entry and feed its content through the stage. A
    /// directory contributes no bytes; an empty file contributes none but
    /// is marked as such. Entries stay in push order.
    pub fn push_source(&mut self, name: String, content: &[u8], is_directory: bool) -> (r: Result<
        (),
        Error,
    >)
        requires
            old(self).wf(),
            old(self).content_bytes().len() + content@.len() <= u64::MAX,
        ensures
            r is Ok,
            final(self).wf(),
            final(self).config() == old(self).config(),
            final(self).content_bytes() == old(self).content_bytes() + (if is_directory {
                Seq::<u8>::empty()
            } else {
                content@
            }),
            final(self).entries() == old(self).entries().push(
                FileEntry {
                    name,
                    size: if is_directory {
                        0u64
                    } else {
                        content@.len() as u64
                    },
                    crc: if is_directory {
                        None
                    } else {
                        Some(crc32_spec(content@))
                    },
                    is_directory,
                    is_anti: false,
                    is_empty_stream: is_directory || content@.len() == 0,
                    is_empty_file: !is_directory && content@.len() == 0,
                    start_pos_in_folder: old(self).content_bytes().len() as u64,
                },
            ),
    {
        let ghost pre = *self;
        if is_directory {
            let entry = FileEntry {
                name,
                size: 0,
                crc: None,
                is_directory: true,
                is_anti: false,
                is_empty_stream: true,
                is_empty_file: false,
                start_pos_in_folder: self.total,
            };
            self.files.push(entry);
            proof {
                assert(self.files@.drop_last() =~= pre.files@);
                assert(pre.content@ + Seq::<u8>::empty() =~= pre.content@);
            }
            return Ok(());
        }
        let entry_crc = crc32(content);
        let size = content.len() as u64;
        let entry = FileEntry {
            name,
            size,
            crc: Some(entry_crc),
            is_directory: false,
            is_anti: false,
            is_empty_stream: content.len() == 0,
            is_empty_file: content.len() == 0,
            start_pos_in_folder: self.total,
        };
        let res = self.enc.write(content);
        if res.is_err() {
            return Err(Error::Io);
        }
        self.crc_state = crc32_update(self.crc_state, content);
        self.total = self.total + size;
        self.files.push(entry);
        proof {
            self.content@ = pre.content@ + content@;
        }
        proof {
            lemma_crc32_fold_concat(0xFFFFFFFFu32, pre.content@, content@);
            assert(self.files@.drop_last() =~= pre.files@);
        }
        Ok(())
    }

    /// Close the folder: hand back the packed stream, the entries, the
    /// CRC-32 of the concatenated uncompressed output, and the folder's
    /// unpacked size, which the entry sizes add up to.
    pub fn finish(self) -> (r: Result<(Vec<u8>, Vec<FileEntry>, u32, u64), Error>)
        requires
            self.wf(),
        ensures
            r is Ok,
            r matches Ok(out) ==> ({
                &&& out.0@ == stage_packed_spec(self.content_bytes(), self.config())
                &&& out.1@ == self.entries()
                &&& out.2 == crc32_spec(self.content_bytes())
                &&& out.3 == self.content_bytes().len()
                &&& sum_sizes(out.1@) == out.3
            }),
    {
        let folder_crc = self.crc_state ^ 0xFFFFFFFFu32;
        proof {
            lemma_crc32_spec_is_fold(self.content@);
        }
        let unpack_size = self.total;
        let ghost pre = self;
        let FolderWriter { enc, files, total, crc_state, cfg, content } = self;
        proof {
            if !(enc is COPY) {
                assert(enc.sink_bytes() =~= Seq::<u8>::empty()) by {
                    assert(fed(enc) == content@);
                }
            }
        }
        let w = match enc.finish() {
            Ok(w) => w,
            Err(e) => return Err(e),
        };
        proof {
            if pre.cfg@.method is COPY {
                assert(w@ =~= stage_packed_spec(content@, cfg@));
            } else {
                assert(Seq::<u8>::empty() + enc.packed_pending() =~= enc.packed_pending());
                assert(w@ =~= stage_packed_spec(content@, cfg@));
            }
        }
        let packed = w.into_bytes();
        Ok((packed, files, folder_crc, unpack_size))
    }
}

} // verus!
