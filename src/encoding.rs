//! The structured result of encoding a text: ids, per-token strings, offsets
//! and masks.
use vstd::prelude::*;
use vstd::utf8::encode_utf8;

verus! {

/// The structured result of tokenizing one text.
pub struct Encoding {
    pub ids: Vec<u32>,
    pub type_ids: Vec<u32>,
    pub tokens: Vec<String>,
    pub word_ids: Vec<Option<u32>>,
    pub offsets: Vec<(usize, usize)>,
    pub special_tokens_mask: Vec<u32>,
    pub attention_mask: Vec<u32>,
}

/// The byte length that `str::len` reports for a text with these chars.
pub open spec fn byte_len(s: Seq<char>) -> nat {
    (encode_utf8(s).len() as usize) as nat
}

/// The texts of a sequence of strings.
pub open spec fn views(toks: Seq<String>) -> Seq<Seq<char>> {
    toks.map_values(|s: String| s@)
}

/// The summed byte lengths of the first `i` token texts.
pub open spec fn bytes_before(toks: Seq<Seq<char>>, i: int) -> nat
    decreases i,
{
    if i <= 0 || toks.len() < i {
        0
    } else {
        bytes_before(toks, i - 1) + byte_len(toks[i - 1])
    }
}

/// Summed byte lengths never shrink as more tokens are counted.
pub proof fn lemma_bytes_before_grows(toks: Seq<Seq<char>>, i: int, j: int)
    requires
        0 <= i <= j <= toks.len(),
    ensures
        bytes_before(toks, i) <= bytes_before(toks, j),
    decreases j - i,
{
    if i < j {
        lemma_bytes_before_grows(toks, i, j - 1);
    }
}

impl Encoding {
    /// The encoding made of `ids` with `toks` as their strings: zero type ids
    /// and special-token mask, word id `i` for token `i`, all-ones attention,
    /// and offsets that accumulate the token strings' byte lengths.
    pub open spec fn from_tokens_spec(&self, ids: Seq<u32>, toks: Seq<String>) -> bool {
        &&& self.ids@ == ids
        &&& self.tokens@ == toks
        &&& self.type_ids@.len() == ids.len()
        &&& self.word_ids@.len() == ids.len()
        &&& self.offsets@.len() == ids.len()
        &&& self.special_tokens_mask@.len() == ids.len()
        &&& self.attention_mask@.len() == ids.len()
        &&& forall|i: int| 0 <= i < ids.len() ==> (#[trigger] self.type_ids@[i]) == 0
        &&& forall|i: int| 0 <= i < ids.len() ==> (#[trigger] self.word_ids@[i]) == Some(i as u32)
        &&& forall|i: int|
            0 <= i < ids.len() ==> (#[trigger] self.offsets@[i]) == (
                bytes_before(views(toks), i) as usize,
                bytes_before(views(toks), i + 1) as usize,
            )
        &&& forall|i: int| 0 <= i < ids.len() ==> (#[trigger] self.special_tokens_mask@[i]) == 0
        &&& forall|i: int| 0 <= i < ids.len() ==> (#[trigger] self.attention_mask@[i]) == 1
    }

    /// Number of tokens.
    pub fn len(&self) -> (r: usize)
        ensures
            r == self.ids@.len(),
    {
        self.ids.len()
    }

    /// Whether there are no tokens.
    pub fn is_empty(&self) -> (r: bool)
        ensures
            r == (self.ids@.len() == 0),
    {
        self.ids.len() == 0
    }

    /// The token ids.
    pub fn get_ids(&self) -> (r: &[u32])
        ensures
            r@ == self.ids@,
    {
        self.ids.as_slice()
    }

    /// The per-token strings.
    pub fn get_tokens(&self) -> (r: &[String])
        ensures
            r@ == self.tokens@,
    {
        self.tokens.as_slice()
    }

    /// The per-token byte offsets.
    pub fn get_offsets(&self) -> (r: &[(usize, usize)])
        ensures
            r@ == self.offsets@,
    {
        self.offsets.as_slice()
    }
}

/// Builds the encoding of `ids` whose strings are `tokens`; `None` when the
/// accumulated offsets would not fit in `usize`.
pub fn encoding_from_tokens(ids: Vec<u32>, tokens: Vec<String>) -> (r: Option<Encoding>)
    requires
        ids@.len() == tokens@.len(),
    ensures
        r is Some <==> bytes_before(views(tokens@), tokens@.len() as int) <= usize::MAX,
        r is Some ==> r->0.from_tokens_spec(ids@, tokens@),
{
    let n = ids.len();
    let mut type_ids: Vec<u32> = Vec::new();
    let mut word_ids: Vec<Option<u32>> = Vec::new();
    let mut offsets: Vec<(usize, usize)> = Vec::new();
    let mut special: Vec<u32> = Vec::new();
    let mut attention: Vec<u32> = Vec::new();
    let mut cur: usize = 0;
    let mut i: usize = 0;
    while i < n
        invariant
            n == ids@.len(),
            n == tokens@.len(),
            0 <= i <= n,
            cur as nat == bytes_before(views(tokens@), i as int),
            type_ids@.len() == i,
            word_ids@.len() == i,
            offsets@.len() == i,
            special@.len() == i,
            attention@.len() == i,
            forall|k: int| 0 <= k < i ==> (#[trigger] type_ids@[k]) == 0,
            forall|k: int| 0 <= k < i ==> (#[trigger] word_ids@[k]) == Some(k as u32),
            forall|k: int|
                0 <= k < i ==> (#[trigger] offsets@[k]) == (
                    bytes_before(views(tokens@), k) as usize,
                    bytes_before(views(tokens@), k + 1) as usize,
                ),
            forall|k: int| 0 <= k < i ==> (#[trigger] special@[k]) == 0,
            forall|k: int| 0 <= k < i ==> (#[trigger] attention@[k]) == 1,
        decreases n - i,
    {
        let l: usize = tokens[i].as_str().len();
        assert(l as nat == byte_len(views(tokens@)[i as int]));
        if l > usize::MAX - cur {
            proof {
                assert(bytes_before(views(tokens@), i + 1) > usize::MAX);
                lemma_bytes_before_grows(views(tokens@), i + 1, n as int);
            }
            return None;
        }
        let next: usize = cur + l;
        assert(bytes_before(views(tokens@), i + 1) == bytes_before(views(tokens@), i as int) + l);
        type_ids.push(0);
        word_ids.push(Some(i as u32));
        offsets.push((cur, next));
        special.push(0);
        attention.push(1);
        cur = next;
        i = i + 1;
    }
    let ghost toks = tokens@;
    let ghost ig = ids@;
    let e = Encoding {
        ids,
        type_ids,
        tokens,
        word_ids,
        offsets,
        special_tokens_mask: special,
        attention_mask: attention,
    };
    assert(e.from_tokens_spec(ig, toks));
    Some(e)
}

} // verus!
