//! Codec parameters as the binding reads them: names of compressors, shuffle
//! modes and chunk key separators (ignoring ASCII case), compression levels,
//! transpose orders, and per-operation codec options.
use vstd::prelude::*;
use vstd::string::*;

use zarrs::array::codec::{BloscCompressionLevel, GzipCompressionLevel, TransposeOrder};

use crate::dtype::{decimal, push_decimal};
use crate::input::{debug_list, push_debug_list};
use crate::text::{
    ascii_lower, ascii_lowercase, debug_quoted, lemma_lowercase_fixed, lemma_lowercase_idempotent, str_debug,
    to_ascii_lowercase,
};

verus! {

/// Why a codec parameter is refused.
#[derive(Clone, Debug)]
pub enum CodecParamError {
    /// An unknown blosc compressor; holds the lowercased name.
    UnknownBloscCompressor(String),
    /// An unknown blosc shuffle mode; holds the lowercased name.
    UnknownBloscShuffleMode(String),
    /// A blosc compression level above 9.
    BloscCompressionLevel(u8),
    /// A gzip compression level above 9.
    GzipCompressionLevel(u32),
    /// A chunk key separator other than `.` and `/`; holds the name as given.
    InvalidChunkKeySeparator(String),
    /// A transpose order that is not a permutation of `0..n` for some `n > 0`.
    TransposeOrder(Vec<usize>),
}

/// The message for an unknown name of `subject`: `quoted` is the name as
/// `Debug` prints it, and `choices` lists the names that are accepted.
pub open spec fn unknown_choice(subject: Seq<char>, quoted: Seq<char>, choices: Seq<char>) -> Seq<char> {
    "unknown "@ + subject + " "@ + quoted + "; expected one of "@ + choices
}

/// The message for an unknown name of `subject`: `quoted` is the name as
/// `Debug` prints it, and `choices` lists the names that are accepted.
pub fn unknown_choice_message(subject: &str, quoted: &str, choices: &str) -> (res: String)
    ensures
        res@ == unknown_choice(subject@, quoted@, choices@),
{
    let mut s = String::from_str("unknown ");
    s.append(subject);
    s.append(" ");
    s.append(quoted);
    s.append("; expected one of ");
    s.append(choices);
    s
}

/// The elements of a list of indices, as `u64`.
pub open spec fn indices_u64(order: Seq<usize>) -> Seq<u64> {
    order.map_values(|x: usize| x as u64)
}

/// A list of indices as `u64`, for printing.
fn to_u64_list(order: &[usize]) -> (res: Vec<u64>)
    ensures
        res@ == indices_u64(order@),
{
    let mut res: Vec<u64> = Vec::new();
    let mut i: usize = 0;
    while i < order.len()
        invariant
            i <= order@.len(),
            res@ == indices_u64(order@.take(i as int)),
        decreases order.len() - i,
    {
        res.push(order[i] as u64);
        assert(indices_u64(order@.take(i + 1)) =~= indices_u64(order@.take(i as int)).push(
            order@[i as int] as u64,
        ));
        i = i + 1;
    }
    assert(order@.take(order@.len() as int) =~= order@);
    res
}

impl CodecParamError {
    /// The user-facing message of this error. Unknown names are quoted as
    /// `Debug` prints a string ([`str_debug`]).
    pub open spec fn spec_message(self) -> Seq<char> {
        match self {
            CodecParamError::UnknownBloscCompressor(l) => unknown_choice(
                "blosc compressor"@,
                str_debug(l@),
                "'blosclz', 'lz4', 'lz4hc', 'snappy', 'zlib', 'zstd'"@,
            ),
            CodecParamError::UnknownBloscShuffleMode(l) => unknown_choice(
                "blosc shuffle mode"@,
                str_debug(l@),
                "'noshuffle', 'shuffle', 'bitshuffle'"@,
            ),
            CodecParamError::BloscCompressionLevel(n) =>
                "blosc compression level must be between 0 and 9, got "@ + decimal(n as nat),
            CodecParamError::GzipCompressionLevel(n) => "invalid gzip compression level "@
                + decimal(n as nat) + "; must be between 0 and 9"@,
            CodecParamError::InvalidChunkKeySeparator(given) => "Invalid chunk key separator: "@
                + given@,
            CodecParamError::TransposeOrder(order) => "permutation order "@ + debug_list(
                indices_u64(order@),
            )
                + " is invalid. It must be an array of integers specifying a permutation of 0, 1, \u{2026}, n-1, where n is the number of dimensions"@,
        }
    }

    /// The user-facing message of this error.
    pub fn message(&self) -> (res: String)
        ensures
            res@ == self.spec_message(),
    {
        match self {
            CodecParamError::UnknownBloscCompressor(l) => {
                let quoted = debug_quoted(l.as_str());
                unknown_choice_message(
                    "blosc compressor",
                    quoted.as_str(),
                    "'blosclz', 'lz4', 'lz4hc', 'snappy', 'zlib', 'zstd'",
                )
            },
            CodecParamError::UnknownBloscShuffleMode(l) => {
                let quoted = debug_quoted(l.as_str());
                unknown_choice_message(
                    "blosc shuffle mode",
                    quoted.as_str(),
                    "'noshuffle', 'shuffle', 'bitshuffle'",
                )
            },
            CodecParamError::BloscCompressionLevel(n) => {
                let mut s = String::from_str("blosc compression level must be between 0 and 9, got ");
                push_decimal(&mut s, *n as u64);
                s
            },
            CodecParamError::GzipCompressionLevel(n) => {
                let mut s = String::from_str("invalid gzip compression level ");
                push_decimal(&mut s, *n as u64);
                s.append("; must be between 0 and 9");
                s
            },
            CodecParamError::InvalidChunkKeySeparator(given) => {
                let mut s = String::from_str("Invalid chunk key separator: ");
                s.append(given.as_str());
                s
            },
            CodecParamError::TransposeOrder(order) => {
                let mut s = String::from_str("permutation order ");
                let values = to_u64_list(order.as_slice());
                push_debug_list(&mut s, values.as_slice());
                s.append(
                    " is invalid. It must be an array of integers specifying a permutation of 0, 1, \u{2026}, n-1, where n is the number of dimensions",
                );
                s
            },
        }
    }
}

/// The `blosc` compressor.
#[derive(Clone, Copy, Debug, PartialEq, Eq, Structural)]
pub enum BloscCompressor {
    BloscLZ,
    LZ4,
    LZ4HC,
    Snappy,
    Zlib,
    Zstd,
}

/// The `blosc` shuffle mode.
#[derive(Clone, Copy, Debug, PartialEq, Eq, Structural)]
pub enum BloscShuffleMode {
    NoShuffle,
    Shuffle,
    BitShuffle,
}

/// The separator between the indices of a chunk key.
#[derive(Clone, Copy, Debug, PartialEq, Eq, Structural)]
pub enum ChunkKeySeparator {
    Dot,
    Slash,
}

/// The blosc compressor that `s` names, ignoring ASCII case.
pub open spec fn spec_blosc_compressor(s: Seq<char>) -> Option<BloscCompressor> {
    let l = ascii_lowercase(s);
    if l == "blosclz"@ {
        Some(BloscCompressor::BloscLZ)
    } else if l == "lz4"@ {
        Some(BloscCompressor::LZ4)
    } else if l == "lz4hc"@ {
        Some(BloscCompressor::LZ4HC)
    } else if l == "snappy"@ {
        Some(BloscCompressor::Snappy)
    } else if l == "zlib"@ {
        Some(BloscCompressor::Zlib)
    } else if l == "zstd"@ {
        Some(BloscCompressor::Zstd)
    } else {
        None
    }
}

/// Read a blosc compressor: one of `blosclz`, `lz4`, `lz4hc`, `snappy`,
/// `zlib` or `zstd`, in any ASCII case.
pub fn parse_blosc_compressor(name: &str) -> (res: Result<BloscCompressor, CodecParamError>)
    ensures
        match res {
            Ok(c) => spec_blosc_compressor(name@) == Some(c),
            Err(CodecParamError::UnknownBloscCompressor(l)) => spec_blosc_compressor(name@) is None
                && l@ == ascii_lowercase(name@),
            Err(_) => false,
        },
{
    let lower = to_ascii_lowercase(name);
    if lower == String::from_str("blosclz") {
        Ok(BloscCompressor::BloscLZ)
    } else if lower == String::from_str("lz4") {
        Ok(BloscCompressor::LZ4)
    } else if lower == String::from_str("lz4hc") {
        Ok(BloscCompressor::LZ4HC)
    } else if lower == String::from_str("snappy") {
        Ok(BloscCompressor::Snappy)
    } else if lower == String::from_str("zlib") {
        Ok(BloscCompressor::Zlib)
    } else if lower == String::from_str("zstd") {
        Ok(BloscCompressor::Zstd)
    } else {
        Err(CodecParamError::UnknownBloscCompressor(lower))
    }
}

/// The blosc shuffle mode that `s` names, ignoring ASCII case.
pub open spec fn spec_blosc_shuffle_mode(s: Seq<char>) -> Option<BloscShuffleMode> {
    let l = ascii_lowercase(s);
    if l == "noshuffle"@ {
        Some(BloscShuffleMode::NoShuffle)
    } else if l == "shuffle"@ {
        Some(BloscShuffleMode::Shuffle)
    } else if l == "bitshuffle"@ {
        Some(BloscShuffleMode::BitShuffle)
    } else {
        None
    }
}

/// Read a blosc shuffle mode: one of `noshuffle`, `shuffle` or `bitshuffle`,
/// in any ASCII case.
pub fn parse_blosc_shuffle_mode(mode: &str) -> (res: Result<BloscShuffleMode, CodecParamError>)
    ensures
        match res {
            Ok(m) => spec_blosc_shuffle_mode(mode@) == Some(m),
            Err(CodecParamError::UnknownBloscShuffleMode(l)) => spec_blosc_shuffle_mode(mode@)
                is None && l@ == ascii_lowercase(mode@),
            Err(_) => false,
        },
{
    let lower = to_ascii_lowercase(mode);
    if lower == String::from_str("noshuffle") {
        Ok(BloscShuffleMode::NoShuffle)
    } else if lower == String::from_str("shuffle") {
        Ok(BloscShuffleMode::Shuffle)
    } else if lower == String::from_str("bitshuffle") {
        Ok(BloscShuffleMode::BitShuffle)
    } else {
        Err(CodecParamError::UnknownBloscShuffleMode(lower))
    }
}

/// The chunk key separator that `s` names, after ASCII lowercasing.
pub open spec fn spec_chunk_key_separator(s: Seq<char>) -> Option<ChunkKeySeparator> {
    let l = ascii_lowercase(s);
    if l == "."@ {
        Some(ChunkKeySeparator::Dot)
    } else if l == "/"@ {
        Some(ChunkKeySeparator::Slash)
    } else {
        None
    }
}

/// Read a chunk key separator: `.` or `/`.
pub fn parse_chunk_key_separator(s: &str) -> (res: Result<ChunkKeySeparator, CodecParamError>)
    ensures
        match res {
            Ok(sep) => spec_chunk_key_separator(s@) == Some(sep),
            Err(CodecParamError::InvalidChunkKeySeparator(given)) => spec_chunk_key_separator(s@)
                is None && given@ == s@,
            Err(_) => false,
        },
{
    let lower = to_ascii_lowercase(s);
    if lower == String::from_str(".") {
        Ok(ChunkKeySeparator::Dot)
    } else if lower == String::from_str("/") {
        Ok(ChunkKeySeparator::Slash)
    } else {
        Err(CodecParamError::InvalidChunkKeySeparator(s.to_owned()))
    }
}

/// zarrs' `BloscCompressionLevel::try_from(u8)`: levels 0 to 9 are accepted.
#[verifier::external_body]
fn zarrs_blosc_level_ok(level: u8) -> (res: bool)
    ensures
        res == (level <= 9),
{
    BloscCompressionLevel::try_from(level).is_ok()
}

/// Check a blosc compression level: 0 disables compression, 1 is fastest and
/// 9 compresses most; anything above 9 is refused.
pub fn blosc_compression_level(level: u8) -> (res: Result<u8, CodecParamError>)
    ensures
        match res {
            Ok(l) => l == level && level <= 9,
            Err(e) => level > 9 && e == CodecParamError::BloscCompressionLevel(level),
        },
{
    if zarrs_blosc_level_ok(level) {
        Ok(level)
    } else {
        Err(CodecParamError::BloscCompressionLevel(level))
    }
}

/// zarrs' `GzipCompressionLevel::try_from(u32)`: levels below 10 are accepted.
#[verifier::external_body]
fn zarrs_gzip_level_ok(level: u32) -> (res: bool)
    ensures
        res == (level < 10),
{
    GzipCompressionLevel::try_from(level).is_ok()
}

/// Check a gzip compression level, an integer from 0 (no compression) to 9
/// (most compression).
pub fn gzip_compression_level(level: u32) -> (res: Result<u32, CodecParamError>)
    ensures
        match res {
            Ok(l) => l == level && level <= 9,
            Err(e) => level > 9 && e == CodecParamError::GzipCompressionLevel(level),
        },
{
    if zarrs_gzip_level_ok(level) {
        Ok(level)
    } else {
        Err(CodecParamError::GzipCompressionLevel(level))
    }
}

/// Whether `order` is a permutation of `0, 1, ..., n - 1` for its length `n > 0`.
pub open spec fn is_permutation(order: Seq<usize>) -> bool {
    &&& order.len() > 0
    &&& forall|i: int| 0 <= i < order.len() ==> #[trigger] order[i] < order.len()
    &&& forall|i: int, j: int|
        0 <= i < order.len() && 0 <= j < order.len() && i != j ==> order[i] != order[j]
}

/// zarrs' `TransposeOrder::new`: it accepts a non-empty order whose distinct
/// values number as many as its entries and whose largest value is one less
/// than its length, which is exactly a permutation of `0..n`.
#[verifier::external_body]
fn zarrs_transpose_order_ok(order: &[usize]) -> (res: bool)
    ensures
        res == is_permutation(order@),
{
    TransposeOrder::new(order).is_ok()
}

/// Check a transpose order: it must be a permutation of `0, 1, ..., n - 1`,
/// where `n` is the number of dimensions.
pub fn transpose_order(order: Vec<usize>) -> (res: Result<Vec<usize>, CodecParamError>)
    ensures
        match res {
            Ok(o) => o@ == order@ && is_permutation(order@),
            Err(CodecParamError::TransposeOrder(o)) => o@ == order@ && !is_permutation(order@),
            Err(_) => false,
        },
{
    if zarrs_transpose_order_ok(order.as_slice()) {
        Ok(order)
    } else {
        Err(CodecParamError::TransposeOrder(order))
    }
}

// ---------------------------------------------------------------------------
// Codec options
// ---------------------------------------------------------------------------

/// The keyword arguments that set per-operation codec options.
#[derive(Clone, Copy, Debug, PartialEq, Eq, Structural)]
pub enum CodecOptionKey {
    ValidateChecksums,
    StoreEmptyChunks,
    ConcurrentTarget,
    ChunkConcurrentMinimum,
    ExperimentalPartialEncoding,
}

/// The codec option key that `s` names exactly.
pub open spec fn spec_codec_option_key(s: Seq<char>) -> Option<CodecOptionKey> {
    if s == "validate_checksums"@ {
        Some(CodecOptionKey::ValidateChecksums)
    } else if s == "store_empty_chunks"@ {
        Some(CodecOptionKey::StoreEmptyChunks)
    } else if s == "concurrent_target"@ {
        Some(CodecOptionKey::ConcurrentTarget)
    } else if s == "chunk_concurrent_minimum"@ {
        Some(CodecOptionKey::ChunkConcurrentMinimum)
    } else if s == "experimental_partial_encoding"@ {
        Some(CodecOptionKey::ExperimentalPartialEncoding)
    } else {
        None
    }
}

/// An unexpected keyword argument; holds the keyword as given.
#[derive(Clone, Debug)]
pub struct UnexpectedKeyword(pub String);

/// Read the name of a codec option keyword argument (case matters).
pub fn parse_codec_option_key(key: &str) -> (res: Result<CodecOptionKey, UnexpectedKeyword>)
    ensures
        match res {
            Ok(k) => spec_codec_option_key(key@) == Some(k),
            Err(UnexpectedKeyword(given)) => spec_codec_option_key(key@) is None && given@ == key@,
        },
{
    let key_string = key.to_owned();
    if key_string == String::from_str("validate_checksums") {
        Ok(CodecOptionKey::ValidateChecksums)
    } else if key_string == String::from_str("store_empty_chunks") {
        Ok(CodecOptionKey::StoreEmptyChunks)
    } else if key_string == String::from_str("concurrent_target") {
        Ok(CodecOptionKey::ConcurrentTarget)
    } else if key_string == String::from_str("chunk_concurrent_minimum") {
        Ok(CodecOptionKey::ChunkConcurrentMinimum)
    } else if key_string == String::from_str("experimental_partial_encoding") {
        Ok(CodecOptionKey::ExperimentalPartialEncoding)
    } else {
        Err(UnexpectedKeyword(key_string))
    }
}

/// One codec option with its value.
#[derive(Clone, Copy, Debug, PartialEq, Eq, Structural)]
pub enum CodecOptionSetting {
    ValidateChecksums(bool),
    StoreEmptyChunks(bool),
    ConcurrentTarget(usize),
    ChunkConcurrentMinimum(usize),
    ExperimentalPartialEncoding(bool),
}

/// The codec options that a call sets; an unset option keeps zarrs' default.
#[derive(Clone, Copy, Debug, PartialEq, Eq, Structural)]
pub struct CodecOptionOverrides {
    pub validate_checksums: Option<bool>,
    pub store_empty_chunks: Option<bool>,
    pub concurrent_target: Option<usize>,
    pub chunk_concurrent_minimum: Option<usize>,
    pub experimental_partial_encoding: Option<bool>,
}

/// The overrides after one more setting: it replaces that option's value and
/// leaves the others.
pub open spec fn spec_apply(o: CodecOptionOverrides, s: CodecOptionSetting) -> CodecOptionOverrides {
    match s {
        CodecOptionSetting::ValidateChecksums(v) => CodecOptionOverrides { validate_checksums: Some(v), ..o },
        CodecOptionSetting::StoreEmptyChunks(v) => CodecOptionOverrides { store_empty_chunks: Some(v), ..o },
        CodecOptionSetting::ConcurrentTarget(v) => CodecOptionOverrides { concurrent_target: Some(v), ..o },
        CodecOptionSetting::ChunkConcurrentMinimum(v) => CodecOptionOverrides {
            chunk_concurrent_minimum: Some(v),
            ..o
        },
        CodecOptionSetting::ExperimentalPartialEncoding(v) => CodecOptionOverrides {
            experimental_partial_encoding: Some(v),
            ..o
        },
    }
}

/// The overrides after a sequence of settings, applied in order.
pub open spec fn spec_apply_all(o: CodecOptionOverrides, s: Seq<CodecOptionSetting>) -> CodecOptionOverrides
    decreases s.len(),
{
    if s.len() == 0 {
        o
    } else {
        spec_apply(spec_apply_all(o, s.drop_last()), s.last())
    }
}

impl CodecOptionOverrides {
    /// No option set.
    pub fn none() -> (res: Self)
        ensures
            res == (CodecOptionOverrides {
                validate_checksums: None,
                store_empty_chunks: None,
                concurrent_target: None,
                chunk_concurrent_minimum: None,
                experimental_partial_encoding: None,
            }),
    {
        CodecOptionOverrides {
            validate_checksums: None,
            store_empty_chunks: None,
            concurrent_target: None,
            chunk_concurrent_minimum: None,
            experimental_partial_encoding: None,
        }
    }

    /// Set one option.
    pub fn apply(&mut self, setting: CodecOptionSetting)
        ensures
            *final(self) == spec_apply(*old(self), setting),
    {
        match setting {
            CodecOptionSetting::ValidateChecksums(v) => self.validate_checksums = Some(v),
            CodecOptionSetting::StoreEmptyChunks(v) => self.store_empty_chunks = Some(v),
            CodecOptionSetting::ConcurrentTarget(v) => self.concurrent_target = Some(v),
            CodecOptionSetting::ChunkConcurrentMinimum(v) => self.chunk_concurrent_minimum = Some(v),
            CodecOptionSetting::ExperimentalPartialEncoding(v) => self.experimental_partial_encoding = Some(v),
        }
    }

    /// The overrides that a sequence of settings gives, applied in order from none.
    pub fn from_settings(settings: &[CodecOptionSetting]) -> (res: Self)
        ensures
            res == spec_apply_all(
                CodecOptionOverrides {
                    validate_checksums: None,
                    store_empty_chunks: None,
                    concurrent_target: None,
                    chunk_concurrent_minimum: None,
                    experimental_partial_encoding: None,
                },
                settings@,
            ),
    {
        let mut o = Self::none();
        let ghost start = o;
        let mut i: usize = 0;
        while i < settings.len()
            invariant
                i <= settings@.len(),
                o == spec_apply_all(start, settings@.take(i as int)),
            decreases settings.len() - i,
        {
            o.apply(settings[i]);
            assert(settings@.take(i + 1).drop_last() =~= settings@.take(i as int));
            i = i + 1;
        }
        assert(settings@.take(settings@.len() as int) =~= settings@);
        o
    }
}

/// Whether the overrides hold the value of `setting` for its option.
pub open spec fn holds_setting(o: CodecOptionOverrides, setting: CodecOptionSetting) -> bool {
    match setting {
        CodecOptionSetting::ValidateChecksums(v) => o.validate_checksums == Some(v),
        CodecOptionSetting::StoreEmptyChunks(v) => o.store_empty_chunks == Some(v),
        CodecOptionSetting::ConcurrentTarget(v) => o.concurrent_target == Some(v),
        CodecOptionSetting::ChunkConcurrentMinimum(v) => o.chunk_concurrent_minimum == Some(v),
        CodecOptionSetting::ExperimentalPartialEncoding(v) => o.experimental_partial_encoding
            == Some(v),
    }
}

/// Whether two settings set the same option.
pub open spec fn same_option(a: CodecOptionSetting, b: CodecOptionSetting) -> bool {
    match (a, b) {
        (CodecOptionSetting::ValidateChecksums(_), CodecOptionSetting::ValidateChecksums(_)) => true,
        (CodecOptionSetting::StoreEmptyChunks(_), CodecOptionSetting::StoreEmptyChunks(_)) => true,
        (CodecOptionSetting::ConcurrentTarget(_), CodecOptionSetting::ConcurrentTarget(_)) => true,
        (CodecOptionSetting::ChunkConcurrentMinimum(_), CodecOptionSetting::ChunkConcurrentMinimum(_)) => true,
        (
            CodecOptionSetting::ExperimentalPartialEncoding(_),
            CodecOptionSetting::ExperimentalPartialEncoding(_),
        ) => true,
        _ => false,
    }
}

/// The last setting of an option decides it: a setting is held after any
/// later settings of other options.
pub proof fn lemma_last_setting_wins(
    o: CodecOptionOverrides,
    s: Seq<CodecOptionSetting>,
    x: CodecOptionSetting,
    later: Seq<CodecOptionSetting>,
)
    requires
        forall|i: int| 0 <= i < later.len() ==> !same_option(#[trigger] later[i], x),
    ensures
        holds_setting(spec_apply_all(o, s.push(x) + later), x),
    decreases later.len(),
{
    if later.len() == 0 {
        assert(s.push(x) + later =~= s.push(x));
        assert(s.push(x).drop_last() =~= s);
    } else {
        let shorter = later.drop_last();
        lemma_last_setting_wins(o, s, x, shorter);
        assert((s.push(x) + later).drop_last() =~= s.push(x) + shorter);
        assert((s.push(x) + later).last() == later.last());
        assert(!same_option(later[later.len() - 1], x));
    }
}

/// Blosc compressor names and shuffle modes are read regardless of ASCII case.
pub proof fn lemma_blosc_names_ignore_case(s: Seq<char>)
    ensures
        spec_blosc_compressor(ascii_lowercase(s)) == spec_blosc_compressor(s),
        spec_blosc_shuffle_mode(ascii_lowercase(s)) == spec_blosc_shuffle_mode(s),
{
    lemma_lowercase_idempotent(s);
}

/// Blosc's own name of each compressor.
pub open spec fn blosc_compressor_name(c: BloscCompressor) -> Seq<char> {
    match c {
        BloscCompressor::BloscLZ => "blosclz"@,
        BloscCompressor::LZ4 => "lz4"@,
        BloscCompressor::LZ4HC => "lz4hc"@,
        BloscCompressor::Snappy => "snappy"@,
        BloscCompressor::Zlib => "zlib"@,
        BloscCompressor::Zstd => "zstd"@,
    }
}

/// Blosc's own name of each shuffle mode.
pub open spec fn blosc_shuffle_mode_name(m: BloscShuffleMode) -> Seq<char> {
    match m {
        BloscShuffleMode::NoShuffle => "noshuffle"@,
        BloscShuffleMode::Shuffle => "shuffle"@,
        BloscShuffleMode::BitShuffle => "bitshuffle"@,
    }
}

/// The character of each chunk key separator.
pub open spec fn chunk_key_separator_text(sep: ChunkKeySeparator) -> Seq<char> {
    match sep {
        ChunkKeySeparator::Dot => "."@,
        ChunkKeySeparator::Slash => "/"@,
    }
}

/// A name reads as a compressor exactly when, in lowercase, it is that
/// compressor's own name; so each compressor is read back from its name, and
/// different names give different compressors.
pub proof fn lemma_blosc_compressor_by_name(s: Seq<char>, c: BloscCompressor)
    ensures
        spec_blosc_compressor(s) == Some(c) <==> ascii_lowercase(s) == blosc_compressor_name(c),
        spec_blosc_compressor(blosc_compressor_name(c)) == Some(c),
{
    reveal_strlit("blosclz");
    reveal_strlit("lz4");
    reveal_strlit("lz4hc");
    reveal_strlit("snappy");
    reveal_strlit("zlib");
    reveal_strlit("zstd");
    assert("zlib"@[1] != "zstd"@[1]);
    let n = blosc_compressor_name(c);
    lemma_lowercase_fixed(n);
}

/// A name reads as a shuffle mode exactly when, in lowercase, it is that
/// mode's own name; so each mode is read back from its name.
pub proof fn lemma_blosc_shuffle_mode_by_name(s: Seq<char>, m: BloscShuffleMode)
    ensures
        spec_blosc_shuffle_mode(s) == Some(m) <==> ascii_lowercase(s) == blosc_shuffle_mode_name(m),
        spec_blosc_shuffle_mode(blosc_shuffle_mode_name(m)) == Some(m),
{
    reveal_strlit("noshuffle");
    reveal_strlit("shuffle");
    reveal_strlit("bitshuffle");
    let n = blosc_shuffle_mode_name(m);
    lemma_lowercase_fixed(n);
}

/// A text reads as a chunk key separator exactly when it is that separator's
/// character.
pub proof fn lemma_chunk_key_separator_by_text(s: Seq<char>, sep: ChunkKeySeparator)
    ensures
        spec_chunk_key_separator(s) == Some(sep) <==> s == chunk_key_separator_text(sep),
{
    reveal_strlit(".");
    reveal_strlit("/");
    if ascii_lowercase(s) == chunk_key_separator_text(sep) {
        assert(ascii_lowercase(s).len() == s.len());
        assert(s.len() == 1);
        assert(ascii_lowercase(s)[0] == ascii_lower(s[0]));
        if 'A' <= s[0] && s[0] <= 'Z' {
            assert('a' <= ascii_lower(s[0]) <= 'z');
        }
        assert(s =~= chunk_key_separator_text(sep));
    }
    if s == chunk_key_separator_text(sep) {
        lemma_lowercase_fixed(s);
    }
}

} // verus!
