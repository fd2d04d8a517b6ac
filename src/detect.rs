//! Format detection: from what a path is and what lies beside it, which of
//! the two tokenizer formats it holds.
use vstd::prelude::*;
use crate::text::{concat, str_eq};

verus! {

/// What a filesystem path names.
#[derive(Clone, Copy, Debug, PartialEq, Eq, Structural)]
pub enum PathKind {
    Dir,
    File,
    Missing,
}

/// The two formats, or neither.
#[derive(Clone, Copy, Debug, PartialEq, Eq, Structural)]
pub enum TokenizerFormat {
    /// A JSON vocabulary table (`tokenizer.json`).
    VocabularyJson,
    /// A byte-pair-encoding table (`tiktoken.model`).
    BytePair,
    Unrecognized,
}

/// Where the JSON vocabulary table is looked for.
#[derive(Clone, Copy, Debug, PartialEq, Eq, Structural)]
pub enum JsonCandidate {
    /// `tokenizer.json` inside the directory.
    InsideDir,
    /// The path itself.
    ThePath,
    /// `tokenizer.json` in the path's parent directory.
    BesideFile,
}

/// The extension is exactly `e`.
pub open spec fn ext_is(extension: Option<Seq<char>>, e: Seq<char>) -> bool {
    extension is Some && extension->0 == e
}

/// Whether a path holds the byte-pair format: a directory with
/// `tiktoken.model` in it, or a file with extension `model`.
pub open spec fn tiktoken_spec(kind: PathKind, has_model_file: bool, extension: Option<Seq<char>>) -> bool {
    match kind {
        PathKind::Dir => has_model_file,
        PathKind::File => ext_is(extension, "model"@),
        PathKind::Missing => false,
    }
}

/// The view of an optional `&str`.
pub open spec fn opt_str_view(s: Option<&str>) -> Option<Seq<char>> {
    match s {
        Some(v) => Some(v@),
        None => None,
    }
}

/// Whether a path holds the byte-pair format. `kind` is what the path names,
/// `has_model_file` whether a directory holds `tiktoken.model`, and
/// `extension` the path's extension.
pub fn is_tiktoken_format(kind: PathKind, has_model_file: bool, extension: Option<&str>) -> (r: bool)
    ensures
        r == tiktoken_spec(kind, has_model_file, opt_str_view(extension)),
{
    match kind {
        PathKind::Dir => has_model_file,
        PathKind::File => match extension {
            Some(e) => str_eq(e, "model"),
            None => false,
        },
        PathKind::Missing => false,
    }
}

/// Where the JSON table is looked for: inside a directory; the path itself
/// when its extension is `json`; beside it otherwise.
pub open spec fn json_candidate_spec(kind: PathKind, extension: Option<Seq<char>>) -> JsonCandidate {
    if kind == PathKind::Dir {
        JsonCandidate::InsideDir
    } else if ext_is(extension, "json"@) {
        JsonCandidate::ThePath
    } else {
        JsonCandidate::BesideFile
    }
}

/// Where the JSON table is looked for.
pub fn json_candidate(kind: PathKind, extension: Option<&str>) -> (r: JsonCandidate)
    ensures
        r == json_candidate_spec(kind, opt_str_view(extension)),
{
    if kind == PathKind::Dir {
        JsonCandidate::InsideDir
    } else {
        match extension {
            Some(e) => if str_eq(e, "json") {
                JsonCandidate::ThePath
            } else {
                JsonCandidate::BesideFile
            },
            None => JsonCandidate::BesideFile,
        }
    }
}

/// The format of a path: the JSON table when the candidate file exists and
/// parses (`json_valid`), else the byte-pair table when present, else none.
pub open spec fn format_spec(
    kind: PathKind,
    extension: Option<Seq<char>>,
    json_valid: bool,
    has_model_file: bool,
) -> TokenizerFormat {
    if json_valid {
        TokenizerFormat::VocabularyJson
    } else if tiktoken_spec(kind, has_model_file, extension) {
        TokenizerFormat::BytePair
    } else {
        TokenizerFormat::Unrecognized
    }
}

/// Classifies a path. `json_valid` tells whether the file that
/// `json_candidate` points at exists and parses as a vocabulary table.
pub fn detect_format(
    kind: PathKind,
    extension: Option<&str>,
    json_valid: bool,
    has_model_file: bool,
) -> (r: TokenizerFormat)
    ensures
        r == format_spec(kind, opt_str_view(extension), json_valid, has_model_file),
{
    if json_valid {
        TokenizerFormat::VocabularyJson
    } else if is_tiktoken_format(kind, has_model_file, extension) {
        TokenizerFormat::BytePair
    } else {
        TokenizerFormat::Unrecognized
    }
}

/// The error for a path that holds neither format.
pub open spec fn no_format_error(path: Seq<char>) -> Seq<char> {
    "No valid tokenizer format found at "@ + path
}

/// The error for a path that holds neither format.
pub fn no_format_message(path: &str) -> (r: String)
    ensures
        r@ == no_format_error(path@),
{
    concat("No valid tokenizer format found at ", path)
}

/// Detection prefers the JSON table and is otherwise declarative: a
/// directory with only a valid JSON table is that format, one with only a
/// byte-pair table is the other, one with neither is unrecognized, and a
/// file with extension `model` is the byte-pair format whatever it holds,
/// unless a valid JSON table stands beside it.
pub proof fn lemma_format_detection(extension: Option<Seq<char>>, has_model_file: bool)
    ensures
        format_spec(PathKind::Dir, extension, true, has_model_file)
            == TokenizerFormat::VocabularyJson,
        format_spec(PathKind::Dir, extension, false, true) == TokenizerFormat::BytePair,
        format_spec(PathKind::Dir, extension, false, false) == TokenizerFormat::Unrecognized,
        format_spec(PathKind::File, Some("model"@), false, has_model_file)
            == TokenizerFormat::BytePair,
        format_spec(PathKind::Missing, extension, false, has_model_file)
            == TokenizerFormat::Unrecognized,
{
}

} // verus!
