//! The process-lifetime memo of resolved tokenizers, and the resolution
//! plan: what must happen to obtain the tokenizer of a model.
use vstd::prelude::*;
use std::sync::Arc;
use crate::shared::share;
use crate::source::{
    cache_target, cache_target_spec, classified, classify_source, file_url_path,
    invalid_path_url, model_placeholder, registry_url, TokenizerSource,
};
use crate::text::{concat, replace_all, str_eq};
use crate::tokens::UnifiedTokenizer;

verus! {

/// A memo entry: `None` means the model has no tokenizer by design.
pub type Memo = Option<Arc<UnifiedTokenizer>>;

/// The map that a list of entries describes; a later entry for a key wins.
pub open spec fn map_of(entries: Seq<(String, Memo)>) -> Map<Seq<char>, Memo>
    decreases entries.len(),
{
    if entries.len() == 0 {
        Map::empty()
    } else {
        let last = entries.last();
        map_of(entries.drop_last()).insert(last.0@, last.1)
    }
}

/// When no entry from `i` on has key `k`, the first `i` entries decide `k`.
proof fn lemma_map_of_prefix(entries: Seq<(String, Memo)>, i: int, k: Seq<char>)
    requires
        0 <= i <= entries.len(),
        forall|j: int| i <= j < entries.len() ==> (#[trigger] entries[j]).0@ != k,
    ensures
        map_of(entries).contains_key(k) == map_of(entries.take(i)).contains_key(k),
        map_of(entries).contains_key(k) ==> map_of(entries)[k] == map_of(entries.take(i))[k],
    decreases entries.len() - i,
{
    if i < entries.len() {
        let shorter = entries.drop_last();
        assert(shorter.take(i) =~= entries.take(i));
        assert forall|j: int| i <= j < shorter.len() implies (#[trigger] shorter[j]).0@ != k by {
            assert(shorter[j] == entries[j]);
        }
        lemma_map_of_prefix(shorter, i, k);
    } else {
        assert(entries.take(i) =~= entries);
    }
}

/// The memo after recording `v` for `k`: an entry once written stays.
pub open spec fn recorded(m: Map<Seq<char>, Memo>, k: Seq<char>, v: Memo) -> Map<
    Seq<char>,
    Memo,
> {
    if m.contains_key(k) {
        m
    } else {
        m.insert(k, v)
    }
}

/// Resolved tokenizers by model id.
pub struct TokenizerCache {
    entries: Vec<(String, Memo)>,
}

impl View for TokenizerCache {
    type V = Map<Seq<char>, Memo>;

    closed spec fn view(&self) -> Map<Seq<char>, Memo> {
        map_of(self.entries@)
    }
}

impl TokenizerCache {
    /// An empty memo.
    pub fn new() -> (r: Self)
        ensures
            r@ == Map::<Seq<char>, Memo>::empty(),
    {
        let r = TokenizerCache { entries: Vec::new() };
        proof {
            assert(r@ == map_of(Seq::<(String, Memo)>::empty()));
        }
        r
    }

    /// The entry for `model_id`: `None` when the model was never resolved,
    /// `Some(None)` when it has no tokenizer by design.
    pub fn get(&self, model_id: &str) -> (r: Option<Memo>)
        ensures
            r is Some <==> self@.contains_key(model_id@),
            r is Some ==> r->0 == self@[model_id@],
    {
        let mut i: usize = self.entries.len();
        while i > 0
            invariant
                0 <= i <= self.entries@.len(),
                forall|j: int|
                    i <= j < self.entries@.len() ==> (#[trigger] self.entries@[j]).0@
                        != model_id@,
            decreases i,
        {
            let entry = &self.entries[i - 1];
            if str_eq(entry.0.as_str(), model_id) {
                proof {
                    let es = self.entries@;
                    lemma_map_of_prefix(es, i as int, model_id@);
                    assert(es.take(i as int).drop_last() =~= es.take(i - 1));
                    assert(es.take(i as int).last() == es[i - 1]);
                }
                let v = match &entry.1 {
                    Some(t) => Some(share(t)),
                    None => None,
                };
                return Some(v);
            }
            i = i - 1;
        }
        proof {
            lemma_map_of_prefix(self.entries@, 0, model_id@);
            assert(self.entries@.take(0) =~= Seq::<(String, Memo)>::empty());
        }
        None
    }

    /// Records `v` for `model_id`, unless an entry for it is already there.
    pub fn record(&mut self, model_id: &str, v: Memo)
        ensures
            final(self)@ == recorded(old(self)@, model_id@, v),
    {
        if self.get(model_id).is_none() {
            let ghost before = self.entries@;
            self.entries.push((String::from_str(model_id), v));
            proof {
                assert(self.entries@.drop_last() =~= before);
            }
        }
    }
}

/// What to do to obtain the tokenizer of a model.
pub enum Resolution {
    /// Already resolved: the memo entry.
    Cached(Memo),
    /// Resolution fails with this message.
    Failed(String),
    /// The model has no tokenizer by design.
    NoTokenizer,
    /// Make sure `target` holds a valid tokenizer fetched from `url`, then
    /// load it.
    Download { url: String, target: String },
    /// Load the tokenizer at this local path.
    Local { path: String },
}

/// The error for a model that declares no tokenizer source.
pub open spec fn empty_source_error(model_id: Seq<char>) -> Seq<char> {
    "failed to load tokenizer: empty tokenizer for "@ + model_id
}

/// The plan for a model not in the memo, by its source descriptor.
pub open spec fn planned(
    model_id: Seq<char>,
    descriptor: Seq<char>,
    template: Seq<char>,
    cache_dir: Seq<char>,
    src: TokenizerSource,
    r: Resolution,
) -> bool {
    match src {
        TokenizerSource::Empty => r is Failed && r->Failed_0@ == empty_source_error(model_id),
        TokenizerSource::Fake => r is NoTokenizer,
        TokenizerSource::Registry(name) => r is Download && r->url@ == replace_all(
            template,
            model_placeholder(),
            name@,
        ) && r->target@ == cache_target_spec(cache_dir, model_id),
        TokenizerSource::Url(u) => r is Download && r->url@ == u@ && r->target@
            == cache_target_spec(cache_dir, model_id),
        TokenizerSource::FileUrl(u) => (r is Local || r is Failed) && (r is Failed ==> exists|
            cause: Seq<char>,
        | r->Failed_0@ == invalid_path_url(u@, cause)),
        TokenizerSource::LocalPath(p) => r is Local && r->path@ == p@,
    }
}

/// Plans the resolution of `model_id`, whose record declares `descriptor`;
/// `template` is the registry download template and `cache_dir` the cache
/// directory. A memo hit is returned as is, without looking at the source.
pub fn plan_resolution(
    cache: &TokenizerCache,
    model_id: &str,
    descriptor: &str,
    template: &str,
    cache_dir: &str,
) -> (r: Resolution)
    ensures
        cache@.contains_key(model_id@) ==> r == Resolution::Cached(cache@[model_id@]),
        !cache@.contains_key(model_id@) ==> exists|src: TokenizerSource|
            classified(descriptor@, src) && planned(
                model_id@,
                descriptor@,
                template@,
                cache_dir@,
                src,
                r,
            ),
{
    if let Some(memo) = cache.get(model_id) {
        return Resolution::Cached(memo);
    }
    let src = classify_source(descriptor);
    let ghost src_g = src;
    let r = match src {
        TokenizerSource::Empty => Resolution::Failed(
            concat("failed to load tokenizer: empty tokenizer for ", model_id),
        ),
        TokenizerSource::Fake => Resolution::NoTokenizer,
        TokenizerSource::Registry(name) => Resolution::Download {
            url: registry_url(template, name.as_str()),
            target: cache_target(cache_dir, model_id),
        },
        TokenizerSource::Url(u) => Resolution::Download {
            url: u,
            target: cache_target(cache_dir, model_id),
        },
        TokenizerSource::FileUrl(u) => match file_url_path(u.as_str()) {
            Ok(p) => Resolution::Local { path: p },
            Err(e) => Resolution::Failed(e),
        },
        TokenizerSource::LocalPath(p) => Resolution::Local { path: p },
    };
    assert(planned(model_id@, descriptor@, template@, cache_dir@, src_g, r));
    r
}

/// A resolved model is served from the memo from then on: after its result
/// is recorded, the memo holds an entry for it, a later resolution finds
/// that entry (so nothing is fetched or built twice), and recording again
/// changes nothing.
pub proof fn lemma_resolution_memoized(m: Map<Seq<char>, Memo>, model_id: Seq<char>, v: Memo, w: Memo)
    ensures
        recorded(m, model_id, v).contains_key(model_id),
        !m.contains_key(model_id) ==> recorded(m, model_id, v)[model_id] == v,
        recorded(recorded(m, model_id, v), model_id, w) == recorded(m, model_id, v),
{
}

/// A model whose descriptor marks it as having no tokenizer is planned as
/// such, and once that is recorded every later resolution finds `None` in
/// the memo.
pub proof fn lemma_no_tokenizer_memoized(
    m: Map<Seq<char>, Memo>,
    model_id: Seq<char>,
    descriptor: Seq<char>,
    src: TokenizerSource,
)
    requires
        descriptor.len() > 0,
        crate::text::has_prefix(descriptor, "fake"@),
        classified(descriptor, src),
        !m.contains_key(model_id),
    ensures
        src is Fake,
        recorded(m, model_id, None).contains_key(model_id),
        recorded(m, model_id, None)[model_id] is None,
{
}

} // verus!
