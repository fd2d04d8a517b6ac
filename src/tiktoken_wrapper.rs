//! The byte-pair-encoding adapter: picks one of the well-known encoding
//! tables, and encodes text into the common `Encoding` shape.
use vstd::prelude::*;
use std::sync::Arc;
use tiktoken_rs::CoreBPE;
use crate::encoding::{Encoding, encoding_from_tokens, bytes_before, views};
use crate::params::{PaddingParams, TruncationParams};
use crate::shared::share;
use crate::text::{concat, contains, has_infix, u32_decimal, decimal};

verus! {

#[verifier::external_type_specification]
#[verifier::external_body]
pub struct ExCoreBPE(CoreBPE);

/// The well-known byte-pair-encoding tables.
#[derive(Clone, Copy, Debug, PartialEq, Eq, Structural)]
pub enum BpeTable {
    O200kBase,
    P50kBase,
    R50kBase,
    Cl100kBase,
}

/// The side-car configuration of a byte-pair-encoding tokenizer.
pub struct TikTokenConfig {
    /// Special-token decorations: token id text and its JSON description.
    pub added_tokens_decoder: Vec<(String, String)>,
    pub model_max_length: Option<usize>,
    /// Pattern-string hint, used only to pick the table.
    pub pat_str: Option<String>,
}

impl TikTokenConfig {
    /// The configuration used when no side-car file is present.
    pub fn new() -> (r: Self)
        ensures
            r.wf(),
            r.added_tokens_decoder@.len() == 0,
            r.model_max_length is None,
            r.pat_str is None,
    {
        TikTokenConfig { added_tokens_decoder: Vec::new(), model_max_length: None, pat_str: None }
    }
}

impl Default for TikTokenConfig {
    fn default() -> (r: Self)
        ensures
            r.added_tokens_decoder@.len() == 0,
            r.model_max_length is None,
            r.pat_str is None,
    {
        Self::new()
    }
}

impl TikTokenConfig {
    /// Each special token is described at most once.
    pub open spec fn wf(&self) -> bool {
        forall|i: int, j: int|
            0 <= i < j < self.added_tokens_decoder@.len() ==> (#[trigger] self.added_tokens_decoder@[i]).0@
                != (#[trigger] self.added_tokens_decoder@[j]).0@
    }

    /// Equal contents.
    pub open spec fn same_as(&self, o: &Self) -> bool {
        &&& self.added_tokens_decoder@ == o.added_tokens_decoder@
        &&& self.model_max_length == o.model_max_length
        &&& self.pat_str == o.pat_str
    }
}

impl Clone for TikTokenConfig {
    fn clone(&self) -> (r: Self)
        ensures
            r.same_as(self),
    {
        let mut decoder: Vec<(String, String)> = Vec::new();
        let mut i: usize = 0;
        while i < self.added_tokens_decoder.len()
            invariant
                0 <= i <= self.added_tokens_decoder@.len(),
                decoder@ == self.added_tokens_decoder@.take(i as int),
            decreases self.added_tokens_decoder@.len() - i,
        {
            let entry = &self.added_tokens_decoder[i];
            decoder.push((entry.0.clone(), entry.1.clone()));
            assert(decoder@ =~= self.added_tokens_decoder@.take(i + 1));
            i = i + 1;
        }
        assert(decoder@ =~= self.added_tokens_decoder@);
        let pat_str = match &self.pat_str {
            Some(p) => Some(p.clone()),
            None => None,
        };
        TikTokenConfig {
            added_tokens_decoder: decoder,
            model_max_length: self.model_max_length,
            pat_str,
        }
    }
}

/// The table picked from a pattern-string hint and a model file name: the
/// hint is consulted for `o200k`, then the file name for `o200k` or
/// `gpt-4o`, `p50k`, and `r50k` or `gpt2`; `cl100k_base` otherwise.
pub open spec fn table_for(pat_str: Option<Seq<char>>, file_name: Seq<char>) -> BpeTable {
    if pat_str is Some && has_infix(pat_str->0, "o200k"@) {
        BpeTable::O200kBase
    } else if has_infix(file_name, "o200k"@) || has_infix(file_name, "gpt-4o"@) {
        BpeTable::O200kBase
    } else if has_infix(file_name, "p50k"@) {
        BpeTable::P50kBase
    } else if has_infix(file_name, "r50k"@) || has_infix(file_name, "gpt2"@) {
        BpeTable::R50kBase
    } else {
        BpeTable::Cl100kBase
    }
}

/// The view of an optional `String`.
pub open spec fn opt_view(s: Option<String>) -> Option<Seq<char>> {
    match s {
        Some(v) => Some(v@),
        None => None,
    }
}

/// Picks the table for a configuration and a model file name.
pub fn select_table(config: &TikTokenConfig, file_name: &str) -> (r: BpeTable)
    ensures
        r == table_for(opt_view(config.pat_str), file_name@),
{
    if let Some(pat) = &config.pat_str {
        if contains(pat.as_str(), "o200k") {
            return BpeTable::O200kBase;
        }
    }
    if contains(file_name, "o200k") || contains(file_name, "gpt-4o") {
        BpeTable::O200kBase
    } else if contains(file_name, "p50k") {
        BpeTable::P50kBase
    } else if contains(file_name, "r50k") || contains(file_name, "gpt2") {
        BpeTable::R50kBase
    } else {
        BpeTable::Cl100kBase
    }
}

/// Relies on `tiktoken_rs::o200k_base`: builds that table from the data embedded
/// in tiktoken-rs, or says why not; it takes no input, so the outcome is
/// always the same.
#[verifier::external_body]
fn o200k_base() -> (r: Result<CoreBPE, String>)
    ensures
        r is Ok <==> table_builds(BpeTable::O200kBase),
{
    match tiktoken_rs::o200k_base() {
        Ok(b) => Ok(b),
        Err(e) => Err(format!("{:?}", e)),
    }
}

/// Relies on `tiktoken_rs::p50k_base`: builds that table from the data embedded
/// in tiktoken-rs, or says why not; it takes no input, so the outcome is
/// always the same.
#[verifier::external_body]
fn p50k_base() -> (r: Result<CoreBPE, String>)
    ensures
        r is Ok <==> table_builds(BpeTable::P50kBase),
{
    match tiktoken_rs::p50k_base() {
        Ok(b) => Ok(b),
        Err(e) => Err(format!("{:?}", e)),
    }
}

/// Relies on `tiktoken_rs::r50k_base`: builds that table from the data embedded
/// in tiktoken-rs, or says why not; it takes no input, so the outcome is
/// always the same.
#[verifier::external_body]
fn r50k_base() -> (r: Result<CoreBPE, String>)
    ensures
        r is Ok <==> table_builds(BpeTable::R50kBase),
{
    match tiktoken_rs::r50k_base() {
        Ok(b) => Ok(b),
        Err(e) => Err(format!("{:?}", e)),
    }
}

/// Relies on `tiktoken_rs::cl100k_base`: builds that table from the data embedded
/// in tiktoken-rs, or says why not; it takes no input, so the outcome is
/// always the same.
#[verifier::external_body]
fn cl100k_base() -> (r: Result<CoreBPE, String>)
    ensures
        r is Ok <==> table_builds(BpeTable::Cl100kBase),
{
    match tiktoken_rs::cl100k_base() {
        Ok(b) => Ok(b),
        Err(e) => Err(format!("{:?}", e)),
    }
}

/// Whether tiktoken-rs builds table `t` from its embedded data.
pub uninterp spec fn table_builds(t: BpeTable) -> bool;

/// The ids that table `t` gives `text`, special tokens treated as plain text.
pub uninterp spec fn bpe_ordinary(t: BpeTable, text: Seq<char>) -> Seq<u32>;

/// The text of id `id` alone in table `t`, when it is valid UTF-8.
pub uninterp spec fn bpe_piece(t: BpeTable, id: u32) -> Option<Seq<char>>;

/// The name under which a table is known.
pub open spec fn table_name(t: BpeTable) -> Seq<char> {
    match t {
        BpeTable::O200kBase => "o200k_base"@,
        BpeTable::P50kBase => "p50k_base"@,
        BpeTable::R50kBase => "r50k_base"@,
        BpeTable::Cl100kBase => "cl100k_base"@,
    }
}

/// The message for a table that could not be built.
pub open spec fn load_error(t: BpeTable, cause: Seq<char>) -> Seq<char> {
    "Failed to load "@ + table_name(t) + " tokenizer: "@ + cause
}

/// Builds table `t`; on failure the message names the table.
pub fn load_table(t: BpeTable) -> (r: Result<CoreBPE, String>)
    ensures
        r is Ok <==> table_builds(t),
        r is Err ==> exists|cause: Seq<char>| r->Err_0@ == load_error(t, cause),
{
    let (built, name) = match t {
        BpeTable::O200kBase => (o200k_base(), "o200k_base"),
        BpeTable::P50kBase => (p50k_base(), "p50k_base"),
        BpeTable::R50kBase => (r50k_base(), "r50k_base"),
        BpeTable::Cl100kBase => (cl100k_base(), "cl100k_base"),
    };
    match built {
        Ok(b) => Ok(b),
        Err(cause) => {
            let head = concat(concat("Failed to load ", name).as_str(), " tokenizer: ");
            let msg = concat(head.as_str(), cause.as_str());
            assert(msg@ == load_error(t, cause@));
            Err(msg)
        },
    }
}

/// Relies on `CoreBPE::encode_ordinary` of the shared instance of table `t`
/// (`tiktoken_rs::*_base_singleton`), which is built as the loader builds it
/// and unwrapped, hence the precondition.
#[verifier::external_body]
fn table_encode_ordinary(t: BpeTable, text: &str) -> (r: Vec<u32>)
    requires
        table_builds(t),
    ensures
        r@ == bpe_ordinary(t, text@),
{
    let shared = match t {
        BpeTable::O200kBase => tiktoken_rs::o200k_base_singleton(),
        BpeTable::P50kBase => tiktoken_rs::p50k_base_singleton(),
        BpeTable::R50kBase => tiktoken_rs::r50k_base_singleton(),
        BpeTable::Cl100kBase => tiktoken_rs::cl100k_base_singleton(),
    };
    let bpe = shared.lock();
    bpe.encode_ordinary(text)
}

/// Relies on `CoreBPE::decode` of the shared instance of table `t`: the text
/// of one id, when it decodes to valid UTF-8.
#[verifier::external_body]
fn table_decode_one(t: BpeTable, id: u32) -> (r: Option<String>)
    requires
        table_builds(t),
    ensures
        opt_view(r) == bpe_piece(t, id),
{
    let shared = match t {
        BpeTable::O200kBase => tiktoken_rs::o200k_base_singleton(),
        BpeTable::P50kBase => tiktoken_rs::p50k_base_singleton(),
        BpeTable::R50kBase => tiktoken_rs::r50k_base_singleton(),
        BpeTable::Cl100kBase => tiktoken_rs::cl100k_base_singleton(),
    };
    let bpe = shared.lock();
    bpe.decode(vec![id]).ok()
}

/// Relies on `CoreBPE::encode_ordinary`: the ids of `text`, special tokens
/// treated as plain text.
#[verifier::external_body]
fn bpe_encode_ordinary(bpe: &CoreBPE, text: &str) -> (r: Vec<u32>) {
    bpe.encode_ordinary(text)
}

/// Relies on `CoreBPE::decode`: the text of one id, when it decodes to valid
/// UTF-8.
#[verifier::external_body]
fn bpe_decode_one(bpe: &CoreBPE, id: u32) -> (r: Option<String>) {
    bpe.decode(vec![id]).ok()
}

/// One of the well-known tables, known to build.
pub struct TableEngine {
    table: BpeTable,
}

impl TableEngine {
    #[verifier::type_invariant]
    spec fn builds(&self) -> bool {
        table_builds(self.table)
    }

    /// The table.
    pub closed spec fn table(&self) -> BpeTable {
        self.table
    }

    /// The engine of table `t`, when tiktoken-rs builds it.
    pub fn load(t: BpeTable) -> (r: Result<Self, String>)
        ensures
            r is Ok <==> table_builds(t),
            r is Ok ==> r->Ok_0.table() == t,
            r is Err ==> exists|cause: Seq<char>| r->Err_0@ == load_error(t, cause),
    {
        match load_table(t) {
            Ok(_) => Ok(TableEngine { table: t }),
            Err(e) => Err(e),
        }
    }

    /// The table.
    pub fn kind(&self) -> (r: BpeTable)
        ensures
            r == self.table(),
    {
        self.table
    }

    /// The ids of `text`.
    pub fn encode_ordinary(&self, text: &str) -> (r: Vec<u32>)
        ensures
            r@ == bpe_ordinary(self.table(), text@),
    {
        proof {
            use_type_invariant(self);
        }
        table_encode_ordinary(self.table, text)
    }

    /// The text of one id, when it decodes on its own.
    pub fn decode_one(&self, id: u32) -> (r: Option<String>)
        ensures
            opt_view(r) == bpe_piece(self.table(), id),
    {
        proof {
            use_type_invariant(self);
        }
        table_decode_one(self.table, id)
    }
}

impl Clone for TableEngine {
    fn clone(&self) -> (r: Self)
        ensures
            r == *self,
    {
        proof {
            use_type_invariant(self);
        }
        TableEngine { table: self.table }
    }
}

/// The engine behind a byte-pair tokenizer.
pub enum BpeEngine {
    /// One of the well-known tables.
    Table(TableEngine),
    /// An engine built by the caller.
    Custom(Arc<CoreBPE>),
}

impl Clone for BpeEngine {
    fn clone(&self) -> (r: Self)
        ensures
            r == *self,
    {
        match self {
            BpeEngine::Table(e) => BpeEngine::Table(e.clone()),
            BpeEngine::Custom(b) => BpeEngine::Custom(share(b)),
        }
    }
}

/// The first `max_length` ids when a truncation is set and they are more.
pub open spec fn truncate_spec(ids: Seq<u32>, truncation: Option<TruncationParams>) -> Seq<u32> {
    match truncation {
        Some(t) => if ids.len() > t.max_length {
            ids.take(t.max_length as int)
        } else {
            ids
        },
        None => ids,
    }
}

/// Applies a truncation to a sequence of ids.
pub fn truncate_ids(ids: Vec<u32>, truncation: Option<TruncationParams>) -> (r: Vec<u32>)
    ensures
        r@ == truncate_spec(ids@, truncation),
{
    let ghost before = ids@;
    let mut ids = ids;
    if let Some(t) = truncation {
        if ids.len() > t.max_length {
            ids.truncate(t.max_length);
            assert(ids@ =~= before.take(t.max_length as int));
        }
    }
    ids
}

/// The string shown for an id that does not decode on its own.
pub open spec fn placeholder(id: u32) -> Seq<char> {
    "token_"@ + decimal(id as nat)
}

/// The string for token `id`: its decoded text, or the placeholder.
pub fn token_string(id: u32, decoded: Option<String>) -> (r: String)
    ensures
        decoded is Some ==> r == decoded->0,
        decoded is None ==> r@ == placeholder(id),
{
    match decoded {
        Some(s) => s,
        None => {
            let digits = u32_decimal(id);
            concat("token_", digits.as_str())
        },
    }
}

/// The text shown for id `id` of table `t`: its decoding, or the
/// placeholder when it does not decode on its own.
pub open spec fn token_text(t: BpeTable, id: u32) -> Seq<char> {
    match bpe_piece(t, id) {
        Some(s) => s,
        None => placeholder(id),
    }
}

/// The ids that table `t` gives `text`, after the truncation.
pub open spec fn table_ids(t: BpeTable, truncation: Option<TruncationParams>, text: Seq<char>) -> Seq<
    u32,
> {
    truncate_spec(bpe_ordinary(t, text), truncation)
}

/// The token texts of `ids` in table `t`.
pub open spec fn table_texts(t: BpeTable, ids: Seq<u32>) -> Seq<Seq<char>> {
    ids.map_values(|id: u32| token_text(t, id))
}

/// The byte-pair-encoding tokenizer with its settings.
pub struct TikTokenWrapper {
    pub engine: BpeEngine,
    pub config: TikTokenConfig,
    pub truncation: Option<TruncationParams>,
    /// Accepted for symmetry with the vocabulary-table engine; has no effect.
    pub padding: Option<PaddingParams>,
}

impl TikTokenWrapper {
    /// The same engine and settings.
    pub open spec fn same_as(&self, o: &Self) -> bool {
        &&& self.engine == o.engine
        &&& self.config.same_as(&o.config)
        &&& self.truncation == o.truncation
        &&& self.padding == o.padding
    }

    /// What encoding `text` gives. With a well-known table: the table's ids,
    /// truncated, each shown by its decoded text or placeholder, and success
    /// exactly when the accumulated offsets fit in `usize`. With an engine of
    /// the caller's: some ids of it, truncated. Either way, a success has the
    /// masks, word ids and offsets of `from_tokens_spec`.
    pub open spec fn encode_ensures(&self, text: Seq<char>, r: Result<Encoding, String>) -> bool {
        &&& r is Ok ==> r->Ok_0.from_tokens_spec(r->Ok_0.ids@, r->Ok_0.tokens@)
        &&& match self.engine {
            BpeEngine::Table(e) => {
                let ids = table_ids(e.table(), self.truncation, text);
                let texts = table_texts(e.table(), ids);
                &&& r is Ok <==> bytes_before(texts, texts.len() as int) <= usize::MAX
                &&& r is Ok ==> r->Ok_0.ids@ == ids && views(r->Ok_0.tokens@) == texts
            },
            BpeEngine::Custom(_) => {
                &&& r is Ok ==> exists|raw: Seq<u32>|
                    r->Ok_0.ids@ == truncate_spec(raw, self.truncation)
                &&& r is Err ==> exists|raw: Seq<u32>, toks: Seq<Seq<char>>|
                    toks.len() == truncate_spec(raw, self.truncation).len() && bytes_before(
                        toks,
                        toks.len() as int,
                    ) > usize::MAX
            },
        }
    }
}

impl TikTokenWrapper {
    /// With a well-known table, the number of tokens of `text` when their
    /// offsets fit in `usize`.
    pub open spec fn table_count(&self, text: Seq<char>) -> Option<nat> {
        match self.engine {
            BpeEngine::Table(e) => {
                let ids = table_ids(e.table(), self.truncation, text);
                let texts = table_texts(e.table(), ids);
                if bytes_before(texts, texts.len() as int) <= usize::MAX {
                    Some(ids.len())
                } else {
                    None
                }
            },
            BpeEngine::Custom(_) => None,
        }
    }
}

impl Clone for TikTokenWrapper {
    fn clone(&self) -> (r: Self)
        ensures
            r.same_as(self),
    {
        TikTokenWrapper {
            engine: self.engine.clone(),
            config: self.config.clone(),
            truncation: self.truncation,
            padding: match &self.padding {
                Some(p) => Some(p.clone()),
                None => None,
            },
        }
    }
}

/// The error for a missing table file in a directory.
pub open spec fn missing_in_dir(dir: Seq<char>) -> Seq<char> {
    "tiktoken.model not found in "@ + dir
}

/// The error for a missing model file.
pub open spec fn missing_file(path: Seq<char>) -> Seq<char> {
    "Model file not found: "@ + path
}

impl TikTokenWrapper {
    /// A fresh wrapper over table `table`: no truncation, no padding.
    pub open spec fn fresh(&self, config: TikTokenConfig, table: BpeTable) -> bool {
        &&& self.engine is Table
        &&& self.engine->Table_0.table() == table
        &&& self.config == config
        &&& self.truncation is None
        &&& self.padding is None
    }

    /// What loading with `config` and a model file named `file_name` gives:
    /// the picked table when it builds, else the error naming it.
    pub open spec fn loaded(r: Result<Self, String>, config: TikTokenConfig, file_name: Seq<char>) -> bool {
        let t = table_for(opt_view(config.pat_str), file_name);
        &&& r is Ok <==> table_builds(t)
        &&& r is Ok ==> r->Ok_0.fresh(config, t)
        &&& r is Err ==> exists|cause: Seq<char>| r->Err_0@ == load_error(t, cause)
    }

    /// Builds the wrapper for the table that `config` and `file_name` pick.
    fn from_config(config: TikTokenConfig, file_name: &str) -> (r: Result<Self, String>)
        ensures
            Self::loaded(r, config, file_name@),
    {
        let table = select_table(&config, file_name);
        match TableEngine::load(table) {
            Ok(engine) => Ok(
                TikTokenWrapper {
                    engine: BpeEngine::Table(engine),
                    config,
                    truncation: None,
                    padding: None,
                },
            ),
            Err(e) => Err(e),
        }
    }

    /// Loads from a directory `dir` that should hold `tiktoken.model`;
    /// `model_present` tells whether it does, and `config` is the side-car
    /// configuration read beside it (the default one when there is none).
    /// The table is picked from the hint in `config` and the file name
    /// `tiktoken.model`.
    pub fn from_directory(dir: &str, model_present: bool, config: TikTokenConfig) -> (r: Result<
        Self,
        String,
    >)
        requires
            config.wf(),
        ensures
            !model_present ==> r is Err && r->Err_0@ == missing_in_dir(dir@),
            model_present ==> Self::loaded(r, config, "tiktoken.model"@),
    {
        if !model_present {
            return Err(concat("tiktoken.model not found in ", dir));
        }
        Self::from_config(config, "tiktoken.model")
    }

    /// Wraps an already-built engine.
    pub fn from_tokenizer(tokenizer: CoreBPE) -> (r: Self)
        ensures
            r.engine == BpeEngine::Custom(Arc::new(tokenizer)),
            r.config.added_tokens_decoder@.len() == 0,
            r.config.model_max_length is None,
            r.config.pat_str is None,
            r.truncation is None,
            r.padding is None,
    {
        TikTokenWrapper {
            engine: BpeEngine::Custom(Arc::new(tokenizer)),
            config: TikTokenConfig::new(),
            truncation: None,
            padding: None,
        }
    }

    /// Loads from the model file at `path`, whose last component is
    /// `file_name`; `model_present` tells whether the file exists, and
    /// `config` is the side-car configuration read beside it.
    pub fn from_model_file(
        path: &str,
        file_name: &str,
        model_present: bool,
        config: TikTokenConfig,
    ) -> (r: Result<Self, String>)
        requires
            config.wf(),
        ensures
            !model_present ==> r is Err && r->Err_0@ == missing_file(path@),
            model_present ==> Self::loaded(r, config, file_name@),
    {
        if !model_present {
            return Err(concat("Model file not found: ", path));
        }
        Self::from_config(config, file_name)
    }

    /// The well-known table in use, if any.
    pub fn table(&self) -> (r: Option<BpeTable>)
        ensures
            self.engine is Table ==> r == Some(self.engine->Table_0.table()),
            self.engine is Custom ==> r is None,
    {
        match &self.engine {
            BpeEngine::Table(e) => Some(e.kind()),
            BpeEngine::Custom(_) => None,
        }
    }

    /// Encodes `text`: the engine's ordinary ids, truncated when a truncation
    /// is set, each with its decoded string (or placeholder), with offsets
    /// that accumulate those strings' byte lengths. No special tokens are
    /// added, whatever `add_special` says.
    pub fn encode_fast(&self, text: &str, add_special: bool) -> (r: Result<Encoding, String>)
        ensures
            self.encode_ensures(text@, r),
    {
        let raw = match &self.engine {
            BpeEngine::Table(e) => e.encode_ordinary(text),
            BpeEngine::Custom(b) => bpe_encode_ordinary(b, text),
        };
        let ids = truncate_ids(raw, self.truncation);
        let mut toks: Vec<String> = Vec::new();
        let mut i: usize = 0;
        while i < ids.len()
            invariant
                0 <= i <= ids@.len(),
                toks@.len() == i,
                self.engine is Table ==> forall|k: int|
                    0 <= k < i ==> (#[trigger] toks@[k])@ == token_text(
                        self.engine->Table_0.table(),
                        ids@[k],
                    ),
            decreases ids@.len() - i,
        {
            let id = ids[i];
            let decoded = match &self.engine {
                BpeEngine::Table(e) => e.decode_one(id),
                BpeEngine::Custom(b) => bpe_decode_one(b, id),
            };
            toks.push(token_string(id, decoded));
            i = i + 1;
        }
        let ghost tv = toks@;
        let ghost iv = ids@;
        proof {
            if self.engine is Table {
                assert(views(tv) =~= table_texts(self.engine->Table_0.table(), iv));
            }
        }
        match encoding_from_tokens(ids, toks) {
            Some(e) => Ok(e),
            None => Err(String::from_str("token offsets do not fit in usize")),
        }
    }

    /// Sets or clears the truncation.
    pub fn with_truncation(&mut self, truncation: Option<TruncationParams>)
        ensures
            *final(self) == (TikTokenWrapper { truncation, ..*old(self) }),
    {
        self.truncation = truncation;
    }

    /// Records padding settings; they have no effect on encoding.
    pub fn with_padding(&mut self, padding: Option<PaddingParams>)
        ensures
            *final(self) == (TikTokenWrapper { padding, ..*old(self) }),
    {
        self.padding = padding;
    }
}

/// With a well-known table, encoding is a function of the table, the
/// truncation and the text alone: two wrappers that share them (a copy held
/// elsewhere, or calls that differ only in `add_special`) give the same
/// outcome, ids, token texts and offsets. So reconfiguring one copy leaves
/// what every other copy encodes unchanged.
pub proof fn lemma_encoding_determined(
    w1: TikTokenWrapper,
    w2: TikTokenWrapper,
    text: Seq<char>,
    r1: Result<Encoding, String>,
    r2: Result<Encoding, String>,
)
    requires
        w1.engine is Table,
        w1.engine == w2.engine,
        w1.truncation == w2.truncation,
        w1.encode_ensures(text, r1),
        w2.encode_ensures(text, r2),
    ensures
        r1 is Ok <==> r2 is Ok,
        r1 is Ok ==> r1->Ok_0.ids@ == r2->Ok_0.ids@,
        r1 is Ok ==> views(r1->Ok_0.tokens@) == views(r2->Ok_0.tokens@),
        r1 is Ok ==> r1->Ok_0.offsets@ == r2->Ok_0.offsets@,
{
    if r1 is Ok {
        let (e1, e2) = (r1->Ok_0, r2->Ok_0);
        assert(views(e1.tokens@) == views(e2.tokens@));
        assert forall|i: int| 0 <= i < e1.offsets@.len() implies e1.offsets@[i] == e2.offsets@[i] by {
            assert(e1.offsets@[i] == (
                bytes_before(views(e1.tokens@), i) as usize,
                bytes_before(views(e1.tokens@), i + 1) as usize,
            ));
        }
        assert(e1.offsets@ =~= e2.offsets@);
    }
}

} // verus!
