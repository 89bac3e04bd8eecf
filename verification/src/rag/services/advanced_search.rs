//! Search over documents: the query's filters and what a hit shows.

use crate::digest::{md5_digest_hex, md5_hex};
use crate::text::{chars_of, is_prefix, lowercase, same_text, starts_with, texts, to_lowercase};
use vstd::prelude::*;
use vstd::string::{StringExecFns, StringSliceAdditionalSpecFns};

verus! {

/// Which documents a search may return.
#[derive(Debug, Clone)]
pub struct SearchFilters {
    pub file_types: Vec<String>,
    pub date_range: Option<DateRange>,
    pub tags: Vec<String>,
    pub min_size: Option<i64>,
    pub max_size: Option<i64>,
    pub has_embeddings: Option<bool>,
}

/// A span of time, both ends in ISO 8601.
#[derive(Debug, Clone)]
pub struct DateRange {
    pub from: String,
    pub to: String,
}

/// How a search looks for documents.
#[derive(Debug, Clone, Copy, PartialEq, Eq, Structural)]
pub enum SearchMode {
    /// By vectors.
    Semantic,
    /// By keywords.
    Keyword,
    /// By approximate matching of words.
    Fuzzy,
    /// In the metadata.
    Metadata,
    /// Semantic and keyword together.
    Hybrid,
}

/// A part of a document that matched.
#[derive(Debug, Clone)]
pub struct SearchHighlight {
    /// "content", "title" or "metadata".
    pub field: String,
    pub text: String,
    pub start_offset: usize,
    pub end_offset: usize,
}

/// Whether a document of the given size passes the size limits.
pub open spec fn spec_size_passes(size: i64, min_size: Option<i64>, max_size: Option<i64>) -> bool {
    &&& (min_size matches Some(lo) ==> size >= lo)
    &&& (max_size matches Some(hi) ==> size <= hi)
}

/// Whether a document passes the embedding filter: with a filter set, the
/// document has embeddings exactly when the filter asks for them.
pub open spec fn spec_embedding_passes(embedded: bool, has_embeddings: Option<bool>) -> bool {
    has_embeddings matches Some(wanted) ==> wanted == embedded
}

/// Whether a document passes the filter on media types: with no type named
/// every document passes, else the document's type must be one of them.
pub open spec fn spec_type_passes(file_types: Seq<Seq<char>>, file_type: Seq<char>) -> bool {
    file_types.len() == 0 || file_types.contains(file_type)
}

impl SearchFilters {
    /// Whether a document passes the filter on media types.
    pub fn type_passes(&self, file_type: &str) -> (r: bool)
        ensures
            r == spec_type_passes(texts(self.file_types@), file_type@),
    {
        if self.file_types.len() == 0 {
            return true;
        }
        let mut i: usize = 0;
        while i < self.file_types.len()
            invariant
                i <= self.file_types.len(),
                forall|j: int| 0 <= j < i ==> texts(self.file_types@)[j] != file_type@,
            decreases self.file_types.len() - i,
        {
            if same_text(self.file_types[i].as_str(), file_type) {
                assert(texts(self.file_types@)[i as int] == file_type@);
                return true;
            }
            i += 1;
        }
        false
    }

    /// Whether a document passes all filters: on its media type, its size
    /// and its embeddings. A document has embeddings when their status is
    /// `completed`.
    pub fn passes(&self, file_type: &str, file_size: i64, embedding_status: &str) -> (r: bool)
        ensures
            r == (spec_type_passes(texts(self.file_types@), file_type@) && spec_size_passes(
                file_size,
                self.min_size,
                self.max_size,
            ) && spec_embedding_passes(embedding_status@ == "completed"@, self.has_embeddings)),
    {
        self.type_passes(file_type) && self.size_passes(file_size) && self.embedding_passes(
            same_text(embedding_status, "completed"),
        )
    }

    /// Whether a document of the given size passes the size limits.
    pub fn size_passes(&self, size: i64) -> (r: bool)
        ensures
            r == spec_size_passes(size, self.min_size, self.max_size),
    {
        let above = match self.min_size {
            Some(lo) => size >= lo,
            None => true,
        };
        let below = match self.max_size {
            Some(hi) => size <= hi,
            None => true,
        };
        above && below
    }

    /// Whether a document passes the embedding filter.
    pub fn embedding_passes(&self, embedded: bool) -> (r: bool)
        ensures
            r == spec_embedding_passes(embedded, self.has_embeddings),
    {
        match self.has_embeddings {
            Some(wanted) => wanted == embedded,
            None => true,
        }
    }
}

/// So many answers are remembered at most.
pub const CACHED_QUERIES: usize = 100;

/// So many completions are offered at most.
pub const MAX_SUGGESTIONS: usize = 5;

/// The key under which the answer to a query is remembered: the MD5 digest
/// of the query in its serialised form.
pub fn generate_cache_key(serialized_query: &str) -> (r: String)
    ensures
        r@ == md5_hex(serialized_query.spec_bytes()),
{
    md5_digest_hex(serialized_query.as_bytes())
}

/// The keys of the answers that are remembered, oldest first. The answers
/// themselves are kept by the caller, under these keys.
pub struct QueryCacheIndex {
    keys: Vec<String>,
}

impl View for QueryCacheIndex {
    type V = Seq<Seq<char>>;

    closed spec fn view(&self) -> Seq<Seq<char>> {
        texts(self.keys@)
    }
}

/// The keys after one more answer was remembered: a key that is there stays
/// where it is; a new key comes last, and of more than
/// [`CACHED_QUERIES`] keys the oldest goes.
pub open spec fn spec_remember_key(keys: Seq<Seq<char>>, key: Seq<char>) -> Seq<Seq<char>> {
    if keys.contains(key) {
        keys
    } else if keys.len() + 1 > CACHED_QUERIES {
        keys.push(key).subrange(1, keys.len() as int + 1)
    } else {
        keys.push(key)
    }
}

impl QueryCacheIndex {
    /// No more keys are remembered than the cache has room for.
    pub closed spec fn wf(&self) -> bool {
        self.keys@.len() <= CACHED_QUERIES
    }

    /// Nothing is remembered.
    pub fn new() -> (r: Self)
        ensures
            r.wf(),
            r@ == Seq::<Seq<char>>::empty(),
    {
        let r = QueryCacheIndex { keys: Vec::new() };
        assert(r@ =~= Seq::<Seq<char>>::empty());
        r
    }

    /// Number of keys remembered.
    pub fn len(&self) -> (r: usize)
        ensures
            r == self@.len(),
    {
        self.keys.len()
    }

    /// Whether an answer is remembered under the key.
    pub fn contains(&self, key: &str) -> (r: bool)
        ensures
            r == self@.contains(key@),
    {
        let mut i: usize = 0;
        while i < self.keys.len()
            invariant
                i <= self.keys.len(),
                forall|j: int| 0 <= j < i ==> self@[j] != key@,
            decreases self.keys.len() - i,
        {
            if same_text(self.keys[i].as_str(), key) {
                assert(self@[i as int] == key@);
                return true;
            }
            i += 1;
        }
        false
    }

    /// Remembers a key. Returns the key whose answer is to be forgotten, if
    /// the cache was full.
    pub fn remember(&mut self, key: &str) -> (evicted: Option<String>)
        requires
            old(self).wf(),
        ensures
            final(self).wf(),
            final(self)@ == spec_remember_key(old(self)@, key@),
            match evicted {
                Some(k) => !old(self)@.contains(key@) && old(self)@.len() + 1 > CACHED_QUERIES
                    && k@ == old(self)@[0],
                None => old(self)@.contains(key@) || old(self)@.len() + 1 <= CACHED_QUERIES,
            },
    {
        if self.contains(key) {
            return None;
        }
        let ghost before = self@;
        self.keys.push(String::from_str(key));
        assert(self@ =~= before.push(key@));
        if self.keys.len() > CACHED_QUERIES {
            let ghost all = self@;
            let oldest = self.keys.remove(0);
            assert(self@ =~= all.subrange(1, all.len() as int));
            Some(oldest)
        } else {
            None
        }
    }
}

/// The terms that are offered as completions, in this order.
pub open spec fn common_terms() -> Seq<Seq<char>> {
    seq![
        "authentication"@,
        "database"@,
        "configuration"@,
        "implementation"@,
        "documentation"@,
        "testing"@,
        "deployment"@,
        "security"@,
        "performance"@,
    ]
}

/// The terms among the first `n` common ones that begin with `prefix`, in
/// order.
pub open spec fn spec_matching_terms(prefix: Seq<char>, n: nat) -> Seq<Seq<char>>
    decreases n,
{
    if n == 0 {
        Seq::empty()
    } else {
        let before = spec_matching_terms(prefix, (n - 1) as nat);
        if is_prefix(prefix, common_terms()[n - 1]) {
            before.push(common_terms()[n - 1])
        } else {
            before
        }
    }
}

/// The completions for what was typed: for at least two bytes of input, the
/// common terms that begin with the input in lower case, at most
/// [`MAX_SUGGESTIONS`] of them.
pub open spec fn spec_query_suggestions(partial: Seq<char>, partial_bytes: nat) -> Seq<Seq<char>> {
    if partial_bytes < 2 {
        Seq::empty()
    } else {
        let all = spec_matching_terms(lowercase(partial), 9);
        if all.len() > MAX_SUGGESTIONS {
            all.subrange(0, MAX_SUGGESTIONS as int)
        } else {
            all
        }
    }
}

/// The completions for what was typed.
pub fn get_query_suggestions(partial_query: &str) -> (r: Vec<&'static str>)
    ensures
        r@.len() == spec_query_suggestions(partial_query@, partial_query.len() as nat).len(),
        forall|i: int|
            0 <= i < r@.len() ==> (#[trigger] r@[i])@ == spec_query_suggestions(
                partial_query@,
                partial_query.len() as nat,
            )[i],
{
    let mut out: Vec<&'static str> = Vec::new();
    if partial_query.len() < 2 {
        return out;
    }
    let terms: [&'static str; 9] = [
        "authentication",
        "database",
        "configuration",
        "implementation",
        "documentation",
        "testing",
        "deployment",
        "security",
        "performance",
    ];
    assert(common_terms().len() == 9);
    assert(forall|k: int| 0 <= k < 9 ==> (#[trigger] terms@[k])@ == common_terms()[k]);
    let lower = to_lowercase(partial_query);
    let ghost prefix = lowercase(partial_query@);
    let mut i: usize = 0;
    while i < 9
        invariant
            i <= 9,
            terms@.len() == 9,
            lower@ == prefix,
            forall|k: int| 0 <= k < 9 ==> (#[trigger] terms@[k])@ == common_terms()[k],
            out@.len() == spec_matching_terms(prefix, i as nat).len(),
            forall|k: int|
                0 <= k < out@.len() ==> (#[trigger] out@[k])@ == spec_matching_terms(
                    prefix,
                    i as nat,
                )[k],
        decreases 9 - i,
    {
        if starts_with(terms[i], lower.as_str()) {
            out.push(terms[i]);
        }
        i += 1;
    }
    if out.len() > MAX_SUGGESTIONS {
        out.truncate(MAX_SUGGESTIONS);
    }
    out
}

/// The least of three numbers.
pub open spec fn min3(a: nat, b: nat, c: nat) -> nat {
    if a <= b && a <= c {
        a
    } else if b <= c {
        b
    } else {
        c
    }
}

/// The edit distance of two texts: the least number of characters to
/// insert, to delete or to replace that turns one into the other.
pub open spec fn spec_levenshtein(a: Seq<char>, b: Seq<char>) -> nat
    decreases a.len() + b.len(),
{
    if a.len() == 0 {
        b.len()
    } else if b.len() == 0 {
        a.len()
    } else {
        let cost: nat = if a.last() == b.last() {
            0
        } else {
            1
        };
        min3(
            spec_levenshtein(a.drop_last(), b) + 1,
            spec_levenshtein(a, b.drop_last()) + 1,
            spec_levenshtein(a.drop_last(), b.drop_last()) + cost,
        )
    }
}

/// The edit distance is never more than the length of the longer text.
pub proof fn lemma_levenshtein_bound(a: Seq<char>, b: Seq<char>)
    ensures
        spec_levenshtein(a, b) <= a.len() || spec_levenshtein(a, b) <= b.len(),
    decreases a.len() + b.len(),
{
    if a.len() > 0 && b.len() > 0 {
        lemma_levenshtein_bound(a.drop_last(), b.drop_last());
    }
}

/// A text is at distance 0 from itself.
pub proof fn lemma_levenshtein_same(a: Seq<char>)
    ensures
        spec_levenshtein(a, a) == 0,
    decreases a.len(),
{
    if a.len() > 0 {
        lemma_levenshtein_same(a.drop_last());
    }
}

/// The edit distance of two texts, by characters.
pub fn levenshtein_distance(s1: &str, s2: &str) -> (r: usize)
    ensures
        r == spec_levenshtein(s1@, s2@),
{
    let a = chars_of(s1);
    let b = chars_of(s2);
    let n: usize = b.len();
    let mut prev: Vec<usize> = Vec::new();
    prev.push(0);
    let mut j: usize = 0;
    while j < n
        invariant
            j <= n,
            n == b@.len(),
            prev@.len() == j + 1,
            forall|k: int| 0 <= k <= j ==> #[trigger] prev@[k] == k,
        decreases n - j,
    {
        prev.push(j + 1);
        j += 1;
    }
    let m: usize = a.len();
    let width: usize = prev.len();
    assert(width == n + 1);
    assert forall|k: int| 0 <= k <= n implies #[trigger] prev@[k] == spec_levenshtein(
        a@.subrange(0, 0),
        b@.subrange(0, k),
    ) by {
        assert(a@.subrange(0, 0).len() == 0);
    }
    let mut i: usize = 0;
    while i < m
        invariant
            i <= a@.len(),
            m == a@.len(),
            a@.len() <= usize::MAX,
            n == b@.len(),
            n < usize::MAX,
            prev@.len() == n + 1,
            forall|k: int|
                0 <= k <= n ==> #[trigger] prev@[k] == spec_levenshtein(
                    a@.subrange(0, i as int),
                    b@.subrange(0, k),
                ),
        decreases a@.len() - i,
    {
        let ghost ai = a@.subrange(0, i as int);
        let ghost ai1 = a@.subrange(0, i + 1);
        assert(ai1.drop_last() =~= ai);
        assert(ai1.last() == a@[i as int]);
        let mut cur: Vec<usize> = Vec::new();
        proof {
            lemma_levenshtein_bound(ai, b@.subrange(0, 0));
        }
        cur.push(i + 1);
        assert(spec_levenshtein(ai1, b@.subrange(0, 0)) == i + 1);
        let mut j: usize = 0;
        while j < n
            invariant
                j <= n,
                i < a@.len(),
                a@.len() <= usize::MAX,
                n == b@.len(),
                n < usize::MAX,
                prev@.len() == n + 1,
                cur@.len() == j + 1,
                ai == a@.subrange(0, i as int),
                ai1 == a@.subrange(0, i + 1),
                ai1.drop_last() == ai,
                ai1.last() == a@[i as int],
                forall|k: int|
                    0 <= k <= n ==> #[trigger] prev@[k] == spec_levenshtein(ai, b@.subrange(0, k)),
                forall|k: int|
                    0 <= k <= j ==> #[trigger] cur@[k] == spec_levenshtein(ai1, b@.subrange(0, k)),
            decreases n - j,
        {
            let ghost bj = b@.subrange(0, j as int);
            let ghost bj1 = b@.subrange(0, j + 1);
            assert(bj1.drop_last() =~= bj);
            assert(bj1.last() == b@[j as int]);
            proof {
                lemma_levenshtein_bound(ai, bj1);
                lemma_levenshtein_bound(ai1, bj);
                lemma_levenshtein_bound(ai, bj);
                lemma_levenshtein_bound(ai1, bj1);
            }
            let cost: u128 = if a[i] == b[j] {
                0
            } else {
                1
            };
            let delete: u128 = prev[j + 1] as u128 + 1;
            let insert: u128 = cur[j] as u128 + 1;
            let replace: u128 = prev[j] as u128 + cost;
            let best: u128 = if delete <= insert && delete <= replace {
                delete
            } else if insert <= replace {
                insert
            } else {
                replace
            };
            assert(best == spec_levenshtein(ai1, bj1));
            assert(ai1.len() == i + 1 && bj1.len() == j + 1);
            assert(best <= usize::MAX);
            let ghost before = cur@;
            cur.push(best as usize);
            assert forall|k: int| 0 <= k <= j + 1 implies #[trigger] cur@[k] == spec_levenshtein(
                ai1,
                b@.subrange(0, k),
            ) by {
                if k <= j {
                    assert(cur@[k] == before[k]);
                } else {
                    assert(b@.subrange(0, k) == bj1);
                }
            }
            j += 1;
        }
        prev = cur;
        i += 1;
    }
    assert(a@.subrange(0, a@.len() as int) =~= a@);
    assert(b@.subrange(0, n as int) =~= b@);
    prev[n]
}

} // verus!
