//! Tokenizer source descriptors, and where a downloaded tokenizer is kept.
use vstd::prelude::*;
use url::Url;
use crate::text::{alnum, chars_of, concat, has_prefix, is_alphanumeric, replace, replace_all, starts_with, string_of, strip_prefix};

verus! {

#[verifier::external_type_specification]
#[verifier::external_body]
pub struct ExUrl(Url);

/// The kinds of tokenizer source a model record can declare.
pub enum TokenizerSource {
    /// No source declared.
    Empty,
    /// The model has no tokenizer by design.
    Fake,
    /// A model name in the remote registry (`hf://<name>`).
    Registry(String),
    /// A direct `http://` or `https://` URL.
    Url(String),
    /// A `file://` URL.
    FileUrl(String),
    /// A bare filesystem path.
    LocalPath(String),
}

/// `r` is the classification of descriptor `d`: checked in order, empty,
/// `fake…`, `hf://…`, `http://…` or `https://…`, `file://…`, and anything
/// else a path.
pub open spec fn classified(d: Seq<char>, r: TokenizerSource) -> bool {
    if d.len() == 0 {
        r is Empty
    } else if has_prefix(d, "fake"@) {
        r is Fake
    } else if has_prefix(d, "hf://"@) {
        r is Registry && r->Registry_0@ == d.skip("hf://"@.len() as int)
    } else if has_prefix(d, "http://"@) || has_prefix(d, "https://"@) {
        r is Url && r->Url_0@ == d
    } else if has_prefix(d, "file://"@) {
        r is FileUrl && r->FileUrl_0@ == d
    } else {
        r is LocalPath && r->LocalPath_0@ == d
    }
}

/// Classifies a tokenizer source descriptor.
pub fn classify_source(descriptor: &str) -> (r: TokenizerSource)
    ensures
        classified(descriptor@, r),
{
    if descriptor.is_empty() {
        TokenizerSource::Empty
    } else if starts_with(descriptor, "fake") {
        TokenizerSource::Fake
    } else if let Some(name) = strip_prefix(descriptor, "hf://") {
        TokenizerSource::Registry(String::from_str(name))
    } else if starts_with(descriptor, "http://") || starts_with(descriptor, "https://") {
        TokenizerSource::Url(String::from_str(descriptor))
    } else if starts_with(descriptor, "file://") {
        TokenizerSource::FileUrl(String::from_str(descriptor))
    } else {
        TokenizerSource::LocalPath(String::from_str(descriptor))
    }
}

/// The placeholder in a download template that the model name replaces.
pub open spec fn model_placeholder() -> Seq<char> {
    "$HF_MODEL"@
}

/// The download URL of a registry model: the template with each
/// `$HF_MODEL` replaced by the name.
pub fn registry_url(template: &str, name: &str) -> (r: String)
    ensures
        r@ == replace_all(template@, model_placeholder(), name@),
{
    proof {
        reveal_strlit("$HF_MODEL");
    }
    replace(template, "$HF_MODEL", name)
}

/// Relies on `url::Url::parse`.
#[verifier::external_body]
fn parse_url(s: &str) -> (r: Result<Url, String>) {
    match Url::parse(s) {
        Ok(u) => Ok(u),
        Err(e) => Err(e.to_string()),
    }
}

/// Relies on `url::Url::to_file_path`: the local path a `file` URL names,
/// when it names one.
#[verifier::external_body]
fn url_file_path(u: &Url) -> (r: Option<String>) {
    match u.to_file_path() {
        Ok(p) => Some(p.to_string_lossy().into_owned()),
        Err(()) => None,
    }
}

/// The error for a `file://` descriptor that names no local path.
pub open spec fn invalid_path_url(d: Seq<char>, cause: Seq<char>) -> Seq<char> {
    "Invalid path URL "@ + d + ": "@ + cause
}

/// The local path that a `file://` URL names.
pub fn file_url_path(d: &str) -> (r: Result<String, String>)
    ensures
        r is Err ==> exists|cause: Seq<char>| r->Err_0@ == invalid_path_url(d@, cause),
{
    let cause = match parse_url(d) {
        Ok(u) => match url_file_path(&u) {
            Some(p) => {
                return Ok(p);
            },
            None => String::from_str("empty host"),
        },
        Err(e) => e,
    };
    let head = concat(concat("Invalid path URL ", d).as_str(), ": ");
    let msg = concat(head.as_str(), cause.as_str());
    assert(msg@ == invalid_path_url(d@, cause@));
    Err(msg)
}

/// The model id without a fine-tune suffix: everything before the first
/// `:`, or the whole id when there is none.
pub open spec fn base_model_spec(id: Seq<char>) -> Seq<char> {
    if exists|i: int| 0 <= i < id.len() && id[i] == ':' {
        let k = choose|i: int| 0 <= i < id.len() && id[i] == ':' && forall|j: int| 0 <= j < i ==> id[j] != ':';
        id.take(k)
    } else {
        id
    }
}

/// The model id without a fine-tune suffix.
pub fn strip_finetune_suffix(id: &str) -> (r: String)
    ensures
        r@ == base_model_spec(id@),
{
    let cs = chars_of(id);
    let mut out: Vec<char> = Vec::new();
    let mut i: usize = 0;
    while i < cs.len()
        invariant
            cs@ == id@,
            0 <= i <= cs@.len(),
            out@ == cs@.take(i as int),
            forall|j: int| 0 <= j < i ==> cs@[j] != ':',
        decreases cs@.len() - i,
    {
        if cs[i] == ':' {
            proof {
                let k = choose|k: int| 0 <= k < id@.len() && id@[k] == ':' && forall|j: int| 0 <= j < k ==> id@[j] != ':';
                assert(0 <= i < id@.len() && id@[i as int] == ':' && forall|j: int| 0 <= j < i ==> id@[j] != ':');
                if k < i {
                } else if k > i {
                    assert(id@[i as int] != ':');
                }
            }
            return string_of(&out);
        }
        out.push(cs[i]);
        assert(out@ =~= cs@.take(i + 1));
        i = i + 1;
    }
    assert(out@ =~= cs@);
    string_of(&out)
}

/// A model id made safe as a directory name: every char that is not
/// alphanumeric becomes `_`.
pub open spec fn sanitize_spec(id: Seq<char>) -> Seq<char> {
    Seq::new(id.len(), |i: int| if alnum(id[i]) { id[i] } else { '_' })
}

/// A model id made safe as a directory name.
pub fn sanitize_model_id(id: &str) -> (r: String)
    ensures
        r@ == sanitize_spec(id@),
{
    let cs = chars_of(id);
    let mut out: Vec<char> = Vec::new();
    let mut i: usize = 0;
    while i < cs.len()
        invariant
            cs@ == id@,
            0 <= i <= cs@.len(),
            out@ == sanitize_spec(cs@).take(i as int),
        decreases cs@.len() - i,
    {
        let c = cs[i];
        out.push(if is_alphanumeric(c) { c } else { '_' });
        assert(out@ =~= sanitize_spec(cs@).take(i + 1));
        i = i + 1;
    }
    assert(out@ =~= sanitize_spec(cs@));
    string_of(&out)
}

/// Path `b` appended under path `a`, with one `/` between them unless `a`
/// is empty or already ends in `/`.
pub open spec fn join_spec(a: Seq<char>, b: Seq<char>) -> Seq<char> {
    if a.len() == 0 || a.last() == '/' {
        a + b
    } else {
        a + seq!['/'] + b
    }
}

/// Path `b` appended under path `a`.
pub fn path_join(a: &str, b: &str) -> (r: String)
    ensures
        r@ == join_spec(a@, b@),
{
    let cs = chars_of(a);
    if cs.len() == 0 || cs[cs.len() - 1] == '/' {
        concat(a, b)
    } else {
        let with_sep = concat(a, "/");
        proof {
            reveal_strlit("/");
        }
        concat(with_sep.as_str(), b)
    }
}

/// Where the tokenizer of a model is kept:
/// `<cache_dir>/tokenizers/<sanitized id>/tokenizer.json`.
pub open spec fn cache_target_spec(cache_dir: Seq<char>, model_id: Seq<char>) -> Seq<char> {
    join_spec(
        join_spec(join_spec(cache_dir, "tokenizers"@), sanitize_spec(model_id)),
        "tokenizer.json"@,
    )
}

/// Where the tokenizer of a model is kept.
pub fn cache_target(cache_dir: &str, model_id: &str) -> (r: String)
    ensures
        r@ == cache_target_spec(cache_dir@, model_id@),
{
    let base = path_join(cache_dir, "tokenizers");
    let id = sanitize_model_id(model_id);
    let dir = path_join(base.as_str(), id.as_str());
    path_join(dir.as_str(), "tokenizer.json")
}

} // verus!
