//! The unified tokenizer over both formats, and token counting with a
//! length-based estimate when no tokenizer is at hand.
use vstd::prelude::*;
use std::sync::Arc;
use tokenizers::{PostProcessor, Tokenizer};
use tokenizers::TruncationParams as HfTruncationParams;
use tokenizers::PaddingParams as HfPaddingParams;
use crate::encoding::Encoding;
use crate::params::{PaddingDirection, PaddingParams, PaddingStrategy, TruncationDirection, TruncationParams, TruncationStrategy};
use crate::shared::share;
use crate::text::concat;
use crate::tiktoken_wrapper::{TikTokenWrapper, truncate_spec};

verus! {

#[verifier::external_type_specification]
#[verifier::external_body]
pub struct ExTokenizer(Tokenizer);

#[verifier::external_type_specification]
#[verifier::external_body]
pub struct ExHfTruncationParams(HfTruncationParams);

#[verifier::external_type_specification]
#[verifier::external_body]
pub struct ExHfPaddingParams(HfPaddingParams);

/// Relies on `Tokenizer::encode`, and on the `Encoding` getters to copy its
/// fields out.
#[verifier::external_body]
fn hf_encode(t: &Tokenizer, text: &str, add_special: bool) -> (r: Result<Encoding, String>) {
    match t.encode(text, add_special) {
        Ok(e) => Ok(Encoding {
            ids: e.get_ids().to_vec(),
            type_ids: e.get_type_ids().to_vec(),
            tokens: e.get_tokens().to_vec(),
            word_ids: e.get_word_ids().to_vec(),
            offsets: e.get_offsets().to_vec(),
            special_tokens_mask: e.get_special_tokens_mask().to_vec(),
            attention_mask: e.get_attention_mask().to_vec(),
        }),
        Err(e) => Err(e.to_string()),
    }
}

/// Converts truncation settings into `tokenizers::TruncationParams`.
#[verifier::external_body]
fn hf_truncation(p: TruncationParams) -> (r: HfTruncationParams) {
    HfTruncationParams {
        direction: match p.direction {
            TruncationDirection::Left => tokenizers::TruncationDirection::Left,
            TruncationDirection::Right => tokenizers::TruncationDirection::Right,
        },
        max_length: p.max_length,
        strategy: match p.strategy {
            TruncationStrategy::LongestFirst => tokenizers::TruncationStrategy::LongestFirst,
            TruncationStrategy::OnlyFirst => tokenizers::TruncationStrategy::OnlyFirst,
            TruncationStrategy::OnlySecond => tokenizers::TruncationStrategy::OnlySecond,
        },
        stride: p.stride,
    }
}

/// Converts padding settings into `tokenizers::PaddingParams`.
#[verifier::external_body]
fn hf_padding(p: PaddingParams) -> (r: HfPaddingParams) {
    HfPaddingParams {
        strategy: match p.strategy {
            PaddingStrategy::BatchLongest => tokenizers::PaddingStrategy::BatchLongest,
            PaddingStrategy::Fixed(n) => tokenizers::PaddingStrategy::Fixed(n),
        },
        direction: match p.direction {
            PaddingDirection::Left => tokenizers::PaddingDirection::Left,
            PaddingDirection::Right => tokenizers::PaddingDirection::Right,
        },
        pad_to_multiple_of: p.pad_to_multiple_of,
        pad_id: p.pad_id,
        pad_type_id: p.pad_type_id,
        pad_token: p.pad_token,
    }
}

/// How many special tokens the post-processor of `t` adds to a single
/// sequence (none without one).
pub uninterp spec fn hf_added(t: Tokenizer) -> nat;

/// Relies on `Tokenizer::clone`: an independent copy of the engine, with the
/// same post-processor.
#[verifier::external_body]
fn hf_clone(t: &Tokenizer) -> (r: Tokenizer)
    ensures
        hf_added(r) == hf_added(*t),
{
    t.clone()
}

/// Relies on the post-processor's `PostProcessor::added_tokens`, which is
/// what `Tokenizer::with_truncation` subtracts from `max_length`.
#[verifier::external_body]
fn hf_added_tokens(t: &Tokenizer) -> (r: usize)
    ensures
        r == hf_added(*t),
{
    match t.get_post_processor() {
        Some(p) => p.added_tokens(false),
        None => 0,
    }
}

/// Relies on `Tokenizer::with_truncation`: it computes `max_length` minus the
/// added special tokens unchecked (hence the precondition) and rejects a
/// stride above that, keeping its setting; otherwise it sets the truncation.
/// `true` when the setting was taken.
#[verifier::external_body]
fn hf_set_truncation(t: &mut Tokenizer, p: Option<TruncationParams>) -> (r: bool)
    requires
        p is Some ==> p->0.max_length >= hf_added(*old(t)),
    ensures
        hf_added(*final(t)) == hf_added(*old(t)),
        r == (p is None || p->0.max_length - hf_added(*old(t)) >= p->0.stride),
{
    t.with_truncation(p.map(hf_truncation)).is_ok()
}

/// Relies on `Tokenizer::with_padding`: sets the padding.
#[verifier::external_body]
fn hf_set_padding(t: &mut Tokenizer, p: Option<HfPaddingParams>)
    ensures
        hf_added(*final(t)) == hf_added(*old(t)),
{
    t.with_padding(p);
}

/// A vocabulary-table engine, with its truncation and padding settings
/// recorded as plain values.
pub struct HfTokenizer {
    engine: Tokenizer,
    truncation: Option<TruncationParams>,
    padding: Option<PaddingParams>,
}

impl HfTokenizer {
    /// The truncation the engine applies.
    pub closed spec fn trunc(&self) -> Option<TruncationParams> {
        self.truncation
    }

    /// The padding the engine applies.
    pub closed spec fn pad(&self) -> Option<PaddingParams> {
        self.padding
    }

    /// The truncation the engine applies.
    pub fn get_truncation(&self) -> (r: Option<TruncationParams>)
        ensures
            r == self.trunc(),
    {
        self.truncation
    }

    /// The padding the engine applies.
    pub fn get_padding(&self) -> (r: Option<PaddingParams>)
        ensures
            r == self.pad(),
    {
        clone_padding(&self.padding)
    }

    /// The special tokens the engine's post-processor adds.
    pub closed spec fn added(&self) -> nat {
        hf_added(self.engine)
    }

    /// Wraps a loaded engine, with its truncation and padding cleared.
    pub fn new(t: Tokenizer) -> (r: Self)
        ensures
            r.trunc() is None,
            r.pad() is None,
    {
        let mut engine = t;
        hf_set_truncation(&mut engine, None);
        hf_set_padding(&mut engine, None);
        HfTokenizer { engine, truncation: None, padding: None }
    }

    /// Encodes `text` with the engine.
    pub fn encode(&self, text: &str, add_special: bool) -> (r: Result<Encoding, String>)
        ensures
            r is Err ==> exists|cause: Seq<char>| r->Err_0@ == hf_error(cause),
    {
        match hf_encode(&self.engine, text, add_special) {
            Ok(e) => Ok(e),
            Err(cause) => {
                let msg = concat("HuggingFace tokenizer error: ", cause.as_str());
                assert(msg@ == hf_error(cause@));
                Err(msg)
            },
        }
    }

    /// A copy with the truncation set, where the engine takes it.
    pub fn with_truncation(&self, truncation: Option<TruncationParams>) -> (r: Self)
        ensures
            r.added() == self.added(),
            r.pad() == self.pad(),
            r.trunc() == hf_truncation_after(self.trunc(), truncation, self.added()),
    {
        let mut engine = hf_clone(&self.engine);
        let taken = match truncation {
            Some(tp) => if tp.max_length >= hf_added_tokens(&engine) {
                hf_set_truncation(&mut engine, truncation)
            } else {
                false
            },
            None => hf_set_truncation(&mut engine, None),
        };
        HfTokenizer {
            engine,
            truncation: if taken {
                truncation
            } else {
                self.truncation
            },
            padding: clone_padding(&self.padding),
        }
    }

    /// A copy with the padding set.
    pub fn with_padding(&self, padding: Option<PaddingParams>) -> (r: Self)
        ensures
            r.added() == self.added(),
            r.trunc() == self.trunc(),
            r.pad() == padding,
    {
        let mut engine = hf_clone(&self.engine);
        let p = match &padding {
            Some(pp) => Some(hf_padding(pp.clone())),
            None => None,
        };
        hf_set_padding(&mut engine, p);
        HfTokenizer { engine, truncation: self.truncation, padding }
    }
}

/// The truncation recorded after asking for `asked` on an engine that adds
/// `added` special tokens and had `current`: clearing always succeeds; a
/// setting is taken when `max_length` covers the added tokens plus the
/// stride, and otherwise the old setting stays.
pub open spec fn hf_truncation_after(
    current: Option<TruncationParams>,
    asked: Option<TruncationParams>,
    added: nat,
) -> Option<TruncationParams> {
    match asked {
        None => None,
        Some(t) => if t.max_length >= added + t.stride {
            asked
        } else {
            current
        },
    }
}

/// A copy of optional padding settings.
fn clone_padding(p: &Option<PaddingParams>) -> (r: Option<PaddingParams>)
    ensures
        r == *p,
{
    match p {
        Some(pp) => Some(pp.clone()),
        None => None,
    }
}

/// A tokenizer of either format behind one encode interface.
pub enum UnifiedTokenizer {
    HuggingFace(Arc<HfTokenizer>),
    TikToken(Arc<TikTokenWrapper>),
}

impl Clone for UnifiedTokenizer {
    fn clone(&self) -> (r: Self)
        ensures
            r == *self,
    {
        match self {
            UnifiedTokenizer::HuggingFace(t) => UnifiedTokenizer::HuggingFace(share(t)),
            UnifiedTokenizer::TikToken(w) => UnifiedTokenizer::TikToken(share(w)),
        }
    }
}

/// The prefix put before an error of the vocabulary-table engine.
pub open spec fn hf_error(cause: Seq<char>) -> Seq<char> {
    "HuggingFace tokenizer error: "@ + cause
}

impl UnifiedTokenizer {
    /// Encodes `text` with whichever engine this is.
    pub fn encode_fast(&self, text: &str, add_special: bool) -> (r: Result<Encoding, String>)
        ensures
            self is HuggingFace && r is Err ==> exists|cause: Seq<char>|
                r->Err_0@ == hf_error(cause),
            self is TikToken ==> self->TikToken_0.encode_ensures(text@, r),
    {
        match self {
            UnifiedTokenizer::HuggingFace(t) => t.encode(text, add_special),
            UnifiedTokenizer::TikToken(w) => w.encode_fast(text, add_special),
        }
    }

    /// A new tokenizer with the truncation set; the engine behind `self` is
    /// copied, never changed, so other holders of it see no difference.
    pub fn with_truncation(self, truncation: Option<TruncationParams>) -> (r: Self)
        ensures
            self is HuggingFace <==> r is HuggingFace,
            self is HuggingFace ==> ({
                let (old_t, new_t) = (self->HuggingFace_0, r->HuggingFace_0);
                &&& new_t.trunc() == hf_truncation_after(
                    old_t.trunc(),
                    truncation,
                    old_t.added(),
                )
                &&& new_t.pad() == old_t.pad()
                &&& new_t.added() == old_t.added()
            }),
            self is TikToken ==> ({
                let (old_w, new_w) = (self->TikToken_0, r->TikToken_0);
                &&& new_w.truncation == truncation
                &&& new_w.engine == old_w.engine
                &&& new_w.config.same_as(&old_w.config)
                &&& new_w.padding == old_w.padding
            }),
    {
        match self {
            UnifiedTokenizer::HuggingFace(t) => UnifiedTokenizer::HuggingFace(
                Arc::new(t.with_truncation(truncation)),
            ),
            UnifiedTokenizer::TikToken(w) => {
                let mut copy = (*w).clone();
                copy.with_truncation(truncation);
                UnifiedTokenizer::TikToken(Arc::new(copy))
            },
        }
    }

    /// A new tokenizer with the padding set; as with truncation, the engine
    /// behind `self` is copied. The byte-pair engine records the setting and
    /// ignores it.
    pub fn with_padding(self, padding: Option<PaddingParams>) -> (r: Self)
        ensures
            self is HuggingFace <==> r is HuggingFace,
            self is HuggingFace ==> ({
                let (old_t, new_t) = (self->HuggingFace_0, r->HuggingFace_0);
                &&& new_t.pad() == padding
                &&& new_t.trunc() == old_t.trunc()
                &&& new_t.added() == old_t.added()
            }),
            self is TikToken ==> ({
                let (old_w, new_w) = (self->TikToken_0, r->TikToken_0);
                &&& new_w.padding == padding
                &&& new_w.engine == old_w.engine
                &&& new_w.config.same_as(&old_w.config)
                &&& new_w.truncation == old_w.truncation
            }),
    {
        match self {
            UnifiedTokenizer::HuggingFace(t) => UnifiedTokenizer::HuggingFace(
                Arc::new(t.with_padding(padding)),
            ),
            UnifiedTokenizer::TikToken(w) => {
                let mut copy = (*w).clone();
                copy.with_padding(padding);
                UnifiedTokenizer::TikToken(Arc::new(copy))
            },
        }
    }
}

/// The length-based estimate for a text of `n` bytes: `1 + floor(2n / 7)`.
pub open spec fn estimate_spec(n: nat) -> nat {
    1 + (2 * n) / 7
}

/// Estimate of the token count of `text`, at about 3.5 bytes per token.
pub fn estimate_tokens(text: &str) -> (r: usize)
    ensures
        r as nat == estimate_spec(text.len() as nat),
{
    let n: usize = text.len();
    let q: usize = n / 7;
    let m: usize = n % 7;
    proof {
        assert(2 * n == 7 * (2 * q) + 2 * m) by (nonlinear_arith)
            requires
                n == 7 * q + m,
        ;
        assert((2 * n) / 7 == 2 * q + (2 * m) / 7) by (nonlinear_arith)
            requires
                2 * n == 7 * (2 * q) + 2 * m,
                0 <= m < 7,
        ;
        assert(2 * q + 1 <= usize::MAX) by (nonlinear_arith)
            requires
                q == n / 7,
                n <= usize::MAX,
        ;
    }
    1 + 2 * q + (2 * m) / 7
}

/// The prefix put before an encode error when counting.
pub open spec fn count_error(cause: Seq<char>) -> Seq<char> {
    "Encoding error: "@ + cause
}

/// The count that an encode outcome gives: its length, or the error with a
/// prefix.
pub fn count_from_encoding(encoded: Result<Encoding, String>) -> (r: Result<usize, String>)
    ensures
        encoded is Ok ==> r == Ok::<usize, String>(encoded->Ok_0.ids@.len() as usize),
        encoded is Err ==> r is Err && r->Err_0@ == count_error(encoded->Err_0@),
{
    match encoded {
        Ok(e) => Ok(e.len()),
        Err(cause) => Err(concat("Encoding error: ", cause.as_str())),
    }
}

/// What counting `text` with `tokenizer` may give: the estimate without a
/// tokenizer; with a well-known byte-pair table, the number of its truncated
/// ids, failing exactly when their offsets overflow; otherwise a prefixed
/// encode error or some count.
pub open spec fn count_ensures(
    tokenizer: Option<UnifiedTokenizer>,
    text: Seq<char>,
    text_len: nat,
    r: Result<usize, String>,
) -> bool {
    &&& tokenizer is None ==> r == Ok::<usize, String>(estimate_spec(text_len) as usize)
    &&& tokenizer is Some && r is Err ==> exists|cause: Seq<char>| r->Err_0@ == count_error(cause)
    &&& tokenizer is Some && tokenizer->0 is TikToken ==> ({
        let w = tokenizer->0->TikToken_0;
        &&& w.engine is Table ==> (r is Ok <==> w.table_count(text) is Some)
        &&& w.engine is Table && r is Ok ==> r->Ok_0 as nat == w.table_count(text)->0
        &&& w.engine is Custom && r is Ok ==> exists|raw: Seq<u32>|
            r->Ok_0 as nat == truncate_spec(raw, w.truncation).len()
    })
}

/// Counts the tokens of `text`; without a tokenizer, the estimate.
pub fn count_text_tokens(tokenizer: Option<UnifiedTokenizer>, text: &str) -> (r: Result<
    usize,
    String,
>)
    ensures
        count_ensures(tokenizer, text@, text.len() as nat, r),
{
    match tokenizer {
        Some(t) => {
            let encoded = t.encode_fast(text, false);
            let r = count_from_encoding(encoded);
            assert(r is Err ==> r->Err_0@ == count_error(encoded->Err_0@));
            assert(encoded is Ok ==> r->Ok_0 as nat == encoded->Ok_0.ids@.len()) by {
                if encoded is Ok {
                    let ids = encoded->Ok_0.ids;
                    assert(ids.len() == ids@.len());
                }
            }
            r
        },
        None => Ok(estimate_tokens(text)),
    }
}

/// The count that falls back to the estimate of a `text_len`-byte text on an
/// error.
pub open spec fn fallback(counted: Result<usize, String>, text_len: nat) -> nat {
    match counted {
        Ok(n) => n as nat,
        Err(_) => estimate_spec(text_len),
    }
}

/// The count that falls back to the estimate of `text` on an error.
pub fn count_or_estimate(counted: Result<usize, String>, text: &str) -> (r: usize)
    ensures
        r as nat == fallback(counted, text.len() as nat),
{
    match counted {
        Ok(n) => n,
        Err(_) => estimate_tokens(text),
    }
}

/// Counts the tokens of `text`, never failing: an encode error gives the
/// estimate.
pub fn count_text_tokens_with_fallback(tokenizer: Option<UnifiedTokenizer>, text: &str) -> (r:
    usize)
    ensures
        exists|c: Result<usize, String>|
            count_ensures(tokenizer, text@, text.len() as nat, c) && r as nat == fallback(
                c,
                text.len() as nat,
            ),
        tokenizer is None ==> r as nat == estimate_spec(text.len() as nat),
{
    let c = count_text_tokens(tokenizer, text);
    count_or_estimate(c, text)
}

} // verus!
