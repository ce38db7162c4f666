//! Bounded keyword retrieval of approved memories, independent of any vector
//! index.
//!
//! A record's importance, a number between zero and one, is held by its
//! order key: the 32-bit pattern of the single-precision value mapped so
//! that keys order as the values do in their total order.
use crate::dedupe::agent_text;
use crate::ids::ProjectId;
use crate::memory::{MemoryKind, MemoryStatus};
use crate::text::{blank, is_blank, same_text, text_len, utf8_len};
use crate::words::{ascii_lower_char, lower_text};
use vstd::prelude::*;
use vstd::string::StrSliceExecFns;
use vstd::string::StringExecFns;

verus! {

/// Longest record identifier, in UTF-8 bytes.
pub const MAX_KEYWORD_ID_BYTES: usize = 128;

/// Longest record content, in UTF-8 bytes.
pub const MAX_KEYWORD_CONTENT_BYTES: usize = 16 * 1024;

/// Longest query text, in UTF-8 bytes.
pub const MAX_QUERY_BYTES: usize = 4096;

/// Most results a query may ask for.
pub const MAX_QUERY_RESULTS: usize = 100;

/// Most terms a query may hold.
pub const MAX_QUERY_TERMS: usize = 64;

/// Order key of an importance of negative zero, the least accepted.
pub const MIN_IMPORTANCE_KEY: u32 = 0x7fff_ffff;

/// Order key of an importance of one, the greatest accepted.
pub const MAX_IMPORTANCE_KEY: u32 = 0xbf80_0000;

#[derive(Debug, Clone, PartialEq, Eq)]
pub struct KeywordMemoryRecord {
    pub id: String,
    pub project_id: ProjectId,
    pub agent_id: Option<String>,
    pub kind: MemoryKind,
    pub status: MemoryStatus,
    pub content: String,
    pub importance: u32,
}

#[derive(Debug, Clone)]
pub struct KeywordQuery {
    pub project_id: ProjectId,
    pub agent_id: Option<String>,
    pub terms: String,
    pub max_results: usize,
    pub max_bytes: usize,
    pub trace_id: String,
}

#[derive(Debug, Clone, PartialEq, Eq)]
pub struct KeywordResult {
    pub id: String,
    pub content: String,
    pub match_count: usize,
    pub importance: u32,
}

#[derive(Debug, Clone, Copy, PartialEq, Eq, Structural)]
pub enum KeywordError {
    InvalidInput,
    DuplicateIdentity,
}

impl KeywordError {
    /// The human-readable description of the error.
    pub fn message(&self) -> (r: &'static str)
        ensures
            r@ == (match *self {
                KeywordError::InvalidInput => "keyword input is invalid"@,
                KeywordError::DuplicateIdentity => "keyword identity is duplicated"@,
            }),
    {
        match self {
            KeywordError::InvalidInput => "keyword input is invalid",
            KeywordError::DuplicateIdentity => "keyword identity is duplicated",
        }
    }
}

// ---------------------------------------------------------------------------
// Terms
// ---------------------------------------------------------------------------
/// Whether std's `char::is_alphanumeric` holds of `c`: Unicode's alphabetic
/// or numeric characters.
pub uninterp spec fn alphanumeric_char(c: char) -> bool;

/// Calls `char::is_alphanumeric`.
#[verifier::external_body]
fn is_alphanumeric(c: char) -> (r: bool)
    ensures
        r == alphanumeric_char(c),
{
    c.is_alphanumeric()
}

/// Characters a term is made of: alphanumeric ones and the underscore.
pub open spec fn is_term_char(c: char) -> bool {
    alphanumeric_char(c) || c == '_'
}

/// The length of the run of term characters that starts `s`.
pub open spec fn run_len(s: Seq<char>) -> nat
    decreases s.len(),
{
    if s.len() == 0 || !is_term_char(s[0]) {
        0
    } else {
        1 + run_len(s.drop_first())
    }
}

pub proof fn lemma_run_len(s: Seq<char>)
    ensures
        run_len(s) <= s.len(),
    decreases s.len(),
{
    if s.len() > 0 && is_term_char(s[0]) {
        lemma_run_len(s.drop_first());
    }
}

proof fn lemma_run_len_exact(s: Seq<char>, j: int)
    requires
        0 <= j <= s.len(),
        forall|k: int| 0 <= k < j ==> is_term_char(#[trigger] s[k]),
        j == s.len() || !is_term_char(s[j]),
    ensures
        run_len(s) == j,
    decreases j,
{
    if j > 0 {
        assert forall|k: int| 0 <= k < j - 1 implies is_term_char(#[trigger] s.drop_first()[k]) by {
            assert(s.drop_first()[k] == s[k + 1]);
        }
        if j < s.len() {
            assert(s.drop_first()[j - 1] == s[j]);
        }
        lemma_run_len_exact(s.drop_first(), j - 1);
    }
}

/// The maximal runs of term characters of `s`, in order.
pub open spec fn runs(s: Seq<char>) -> Seq<Seq<char>>
    decreases s.len(),
{
    if s.len() == 0 {
        seq![]
    } else if !is_term_char(s[0]) {
        runs(s.drop_first())
    } else {
        proof {
            lemma_run_len(s);
        }
        seq![s.take(run_len(s) as int)] + runs(s.skip(run_len(s) as int))
    }
}

/// The terms of a text: its runs of term characters in ASCII lower case.
pub open spec fn terms_of(s: Seq<char>) -> Seq<Seq<char>> {
    runs(s).map_values(|w: Seq<char>| lower_text(w))
}

fn lower_copy(s: &str) -> (r: String)
    ensures
        r@ == lower_text(s@),
{
    let mut out = String::new();
    crate::words::append_lower(&mut out, s);
    assert(out@ =~= lower_text(s@));
    out
}

/// The terms of `value`.
pub fn tokens(value: &str) -> (r: Vec<String>)
    ensures
        r@.len() == terms_of(value@).len(),
        forall|k: int| 0 <= k < r@.len() ==> #[trigger] r@[k]@ == terms_of(value@)[k],
{
    let n = value.unicode_len();
    let mut out: Vec<String> = Vec::new();
    let ghost done: Seq<Seq<char>> = seq![];
    let mut i: usize = 0;
    assert(value@.skip(0) =~= value@);
    while i < n
        invariant
            n == value@.len(),
            i <= n,
            out@.len() == done.len(),
            forall|k: int| 0 <= k < out@.len() ==> #[trigger] out@[k]@ == lower_text(done[k]),
            runs(value@) == done + runs(value@.skip(i as int)),
        decreases n - i,
    {
        let ghost t = value@.skip(i as int);
        let c = value.get_char(i);
        if !(is_alphanumeric(c) || c == '_') {
            assert(t.drop_first() =~= value@.skip(i + 1));
            i = i + 1;
        } else {
            let mut j: usize = i + 1;
            while j < n && (is_alphanumeric(value.get_char(j)) || value.get_char(j) == '_')
                invariant
                    n == value@.len(),
                    i < j <= n,
                    forall|k: int| i <= k < j ==> is_term_char(#[trigger] value@[k]),
                decreases n - j,
            {
                j = j + 1;
            }
            proof {
                assert forall|k: int| 0 <= k < j - i implies is_term_char(#[trigger] t[k]) by {
                    assert(t[k] == value@[i + k]);
                }
                if j < n {
                    assert(t[j - i] == value@[j as int]);
                }
                lemma_run_len_exact(t, j - i);
                assert(t.skip(j - i) =~= value@.skip(j as int));
            }
            let piece = value.substring_char(i, j);
            assert(piece@ =~= t.take(j - i));
            out.push(lower_copy(piece));
            proof {
                done = done.push(t.take(j - i));
            }
            assert(runs(value@) =~= done + runs(value@.skip(j as int)));
            i = j;
        }
    }
    assert(runs(value@.skip(i as int)) =~= Seq::<Seq<char>>::empty());
    assert(runs(value@) =~= done);
    out
}

/// How many of the query's terms, counted with repetition, occur among the
/// record's terms.
pub open spec fn present_count(qs: Seq<Seq<char>>, ws: Seq<Seq<char>>) -> nat
    decreases qs.len(),
{
    if qs.len() == 0 {
        0
    } else {
        present_count(qs.drop_last(), ws) + if ws.contains(qs.last()) {
            1nat
        } else {
            0nat
        }
    }
}

fn contains_term(ws: &Vec<String>, t: &String) -> (r: bool)
    ensures
        r == exists|k: int| 0 <= k < ws@.len() && (#[trigger] ws@[k])@ == t@,
{
    let mut k: usize = 0;
    while k < ws.len()
        invariant
            k <= ws@.len(),
            forall|m: int| 0 <= m < k ==> (#[trigger] ws@[m])@ != t@,
        decreases ws@.len() - k,
    {
        if same_text(ws[k].as_str(), t.as_str()) {
            return true;
        }
        k = k + 1;
    }
    false
}

// ---------------------------------------------------------------------------
// Ranking
// ---------------------------------------------------------------------------
/// `a` comes before `b` in code point order, character by character.
pub open spec fn text_less(a: Seq<char>, b: Seq<char>) -> bool
    decreases a.len(),
{
    if a.len() == 0 {
        b.len() > 0
    } else if b.len() == 0 {
        false
    } else if a[0] != b[0] {
        (a[0] as u32) < (b[0] as u32)
    } else {
        text_less(a.drop_first(), b.drop_first())
    }
}

proof fn lemma_text_less_order(a: Seq<char>, b: Seq<char>, c: Seq<char>)
    ensures
        text_less(a, b) ==> !text_less(b, a),
        text_less(a, b) && text_less(b, c) ==> text_less(a, c),
    decreases a.len(),
{
    if a.len() > 0 && b.len() > 0 && c.len() > 0 {
        lemma_text_less_order(a.drop_first(), b.drop_first(), c.drop_first());
    } else if a.len() > 0 && b.len() > 0 {
        lemma_text_less_order(a.drop_first(), b.drop_first(), a.drop_first());
    }
}

fn text_before(a: &str, b: &str) -> (r: bool)
    ensures
        r == text_less(a@, b@),
{
    let n = a.unicode_len();
    let m = b.unicode_len();
    let mut i: usize = 0;
    assert(a@.skip(0) =~= a@);
    assert(b@.skip(0) =~= b@);
    while i < n && i < m
        invariant
            n == a@.len(),
            m == b@.len(),
            i <= n,
            i <= m,
            text_less(a@, b@) == text_less(a@.skip(i as int), b@.skip(i as int)),
        decreases n - i,
    {
        let x = a.get_char(i);
        let y = b.get_char(i);
        assert(a@.skip(i as int)[0] == x);
        assert(b@.skip(i as int)[0] == y);
        if x != y {
            return (x as u32) < (y as u32);
        }
        assert(a@.skip(i as int).drop_first() =~= a@.skip(i + 1));
        assert(b@.skip(i as int).drop_first() =~= b@.skip(i + 1));
        i = i + 1;
    }
    i == n && i < m
}

/// A match: the position of a record and how many query terms it holds.
pub type KeywordMatch = (usize, usize);

/// Match `a` ranks before match `b` among the records `rs`: more terms
/// first, then greater importance, then the smaller identifier.
pub open spec fn ranks_before(rs: Seq<KeywordMemoryRecord>, a: KeywordMatch, b: KeywordMatch) -> bool {
    ||| a.1 > b.1
    ||| a.1 == b.1 && rs[a.0 as int].importance > rs[b.0 as int].importance
    ||| a.1 == b.1 && rs[a.0 as int].importance == rs[b.0 as int].importance && text_less(
        rs[a.0 as int].id@,
        rs[b.0 as int].id@,
    )
}

proof fn lemma_ranks_order(rs: Seq<KeywordMemoryRecord>, a: KeywordMatch, b: KeywordMatch, c: KeywordMatch)
    ensures
        ranks_before(rs, a, b) ==> !ranks_before(rs, b, a),
        ranks_before(rs, a, b) && ranks_before(rs, b, c) ==> ranks_before(rs, a, c),
{
    lemma_text_less_order(rs[a.0 as int].id@, rs[b.0 as int].id@, rs[c.0 as int].id@);
    lemma_text_less_order(rs[b.0 as int].id@, rs[a.0 as int].id@, rs[c.0 as int].id@);
}

/// No match of `r` ranks before an earlier one.
pub open spec fn ranked(rs: Seq<KeywordMemoryRecord>, r: Seq<KeywordMatch>) -> bool {
    forall|i: int, j: int| 0 <= i < j < r.len() ==> !#[trigger] ranks_before(rs, r[j], r[i])
}

fn match_before(rs: &Vec<KeywordMemoryRecord>, a: KeywordMatch, b: KeywordMatch) -> (r: bool)
    requires
        a.0 < rs@.len(),
        b.0 < rs@.len(),
    ensures
        r == ranks_before(rs@, a, b),
{
    if a.1 != b.1 {
        return a.1 > b.1;
    }
    let x = &rs[a.0];
    let y = &rs[b.0];
    if x.importance != y.importance {
        return x.importance > y.importance;
    }
    text_before(x.id.as_str(), y.id.as_str())
}

fn rank(rs: &Vec<KeywordMemoryRecord>, found: Vec<KeywordMatch>) -> (r: Vec<KeywordMatch>)
    requires
        forall|k: int| 0 <= k < found@.len() ==> (#[trigger] found@[k]).0 < rs@.len(),
    ensures
        r@.to_multiset() == found@.to_multiset(),
        ranked(rs@, r@),
        forall|k: int| 0 <= k < r@.len() ==> (#[trigger] r@[k]).0 < rs@.len(),
{
    let mut out: Vec<KeywordMatch> = Vec::new();
    let mut k: usize = 0;
    assert(found@.take(0) =~= Seq::<KeywordMatch>::empty());
    while k < found.len()
        invariant
            k <= found@.len(),
            forall|m: int| 0 <= m < found@.len() ==> (#[trigger] found@[m]).0 < rs@.len(),
            forall|m: int| 0 <= m < out@.len() ==> (#[trigger] out@[m]).0 < rs@.len(),
            out@.to_multiset() == found@.take(k as int).to_multiset(),
            ranked(rs@, out@),
        decreases found@.len() - k,
    {
        let m = found[k];
        let mut p: usize = 0;
        while p < out.len() && !match_before(rs, m, out[p])
            invariant
                p <= out@.len(),
                m.0 < rs@.len(),
                forall|q: int| 0 <= q < out@.len() ==> (#[trigger] out@[q]).0 < rs@.len(),
                forall|q: int| 0 <= q < p ==> !#[trigger] ranks_before(rs@, m, out@[q]),
            decreases out@.len() - p,
        {
            p = p + 1;
        }
        let ghost before = out@;
        proof {
            if p < before.len() {
                assert(ranks_before(rs@, m, before[p as int]));
            }
        }
        out.insert(p, m);
        proof {
            let after = out@;
            assert(after == before.insert(p as int, m));
            assert forall|i: int, j: int| 0 <= i < j < after.len() implies !#[trigger] ranks_before(
                rs@,
                after[j],
                after[i],
            ) by {
                if j < p {
                    assert(after[i] == before[i] && after[j] == before[j]);
                } else if j == p {
                    assert(after[i] == before[i] && after[j] == m);
                } else if i < p {
                    assert(after[i] == before[i] && after[j] == before[j - 1]);
                } else if i == p {
                    assert(after[i] == m && after[j] == before[j - 1]);
                    lemma_ranks_order(rs@, m, before[p as int], m);
                    lemma_ranks_order(rs@, before[j - 1], m, before[p as int]);
                    if j - 1 > p {
                        assert(!ranks_before(rs@, before[j - 1], before[p as int]));
                    }
                } else {
                    assert(after[i] == before[i - 1] && after[j] == before[j - 1]);
                }
            }
            assert(found@.take(k + 1) =~= found@.take(k as int).push(m));
            vstd::seq_lib::to_multiset_insert(before, p as int, m);
            vstd::seq_lib::to_multiset_build(found@.take(k as int), m);
        }
        k = k + 1;
    }
    assert(found@.take(k as int) =~= found@);
    out
}

// ---------------------------------------------------------------------------
// Retrieval
// ---------------------------------------------------------------------------
/// A record may be stored: a short non-empty identifier, a content that is
/// not blank and within the bound, and an importance between zero and one.
pub open spec fn record_valid(r: KeywordMemoryRecord) -> bool {
    &&& r.id@.len() > 0
    &&& utf8_len(r.id@) <= MAX_KEYWORD_ID_BYTES
    &&& !is_blank(r.content@)
    &&& utf8_len(r.content@) <= MAX_KEYWORD_CONTENT_BYTES
    &&& MIN_IMPORTANCE_KEY <= r.importance <= MAX_IMPORTANCE_KEY
}

pub open spec fn has_record_id(rs: Seq<KeywordMemoryRecord>, id: Seq<char>) -> bool {
    exists|i: int| 0 <= i < rs.len() && (#[trigger] rs[i]).id@ == id
}

/// A query that is refused: a query text that is too long or blank, no
/// trace, a result count out of range, no byte budget, or no terms or too
/// many.
pub open spec fn query_refused(q: KeywordQuery) -> bool {
    ||| utf8_len(q.terms@) > MAX_QUERY_BYTES
    ||| is_blank(q.terms@)
    ||| q.trace_id@.len() == 0
    ||| q.max_results == 0
    ||| q.max_results > MAX_QUERY_RESULTS
    ||| q.max_bytes == 0
    ||| terms_of(q.terms@).len() == 0
    ||| terms_of(q.terms@).len() > MAX_QUERY_TERMS
}

/// The record is an approved memory of the query's project and agent.
pub open spec fn in_scope(r: KeywordMemoryRecord, q: KeywordQuery) -> bool {
    &&& r.project_id == q.project_id
    &&& agent_text(r.agent_id) == agent_text(q.agent_id)
    &&& r.status == MemoryStatus::Approved
}

/// The matches among the first `n` records, in record order: the records in
/// scope that hold at least one query term, with how many they hold.
pub open spec fn matches_upto(rs: Seq<KeywordMemoryRecord>, q: KeywordQuery, n: nat) -> Seq<KeywordMatch>
    decreases n,
{
    if n == 0 {
        seq![]
    } else {
        let prev = matches_upto(rs, q, (n - 1) as nat);
        let c = present_count(terms_of(q.terms@), terms_of(rs[n - 1].content@));
        if in_scope(rs[n - 1], q) && c > 0 {
            prev.push(((n - 1) as usize, c as usize))
        } else {
            prev
        }
    }
}

/// The matches kept from `r`, taken in order, and the content bytes they
/// use: a match is kept while fewer than `max_results` are and its content
/// still fits in `max_bytes`.
pub open spec fn kept(rs: Seq<KeywordMemoryRecord>, r: Seq<KeywordMatch>, max_results: nat, max_bytes: nat) -> (
    Seq<KeywordMatch>,
    nat,
)
    decreases r.len(),
{
    if r.len() == 0 {
        (seq![], 0)
    } else {
        let (acc, used) = kept(rs, r.drop_last(), max_results, max_bytes);
        let x = r.last();
        let size = utf8_len(rs[x.0 as int].content@);
        if acc.len() >= max_results || used + size > max_bytes {
            (acc, used)
        } else {
            (acc.push(x), used + size)
        }
    }
}

/// `res` reports the matches `chosen` of records `rs`.
pub open spec fn reports(rs: Seq<KeywordMemoryRecord>, res: Seq<KeywordResult>, chosen: Seq<KeywordMatch>) -> bool {
    &&& res.len() == chosen.len()
    &&& forall|k: int|
        0 <= k < res.len() ==> {
            let x = #[trigger] chosen[k];
            &&& res[k].id@ == rs[x.0 as int].id@
            &&& res[k].content@ == rs[x.0 as int].content@
            &&& res[k].match_count == x.1
            &&& res[k].importance == rs[x.0 as int].importance
        }
}

proof fn lemma_matches_bounded(rs: Seq<KeywordMemoryRecord>, q: KeywordQuery, n: nat)
    requires
        n <= rs.len() <= usize::MAX,
    ensures
        forall|k: int|
            0 <= k < matches_upto(rs, q, n).len() ==> (#[trigger] matches_upto(rs, q, n)[k]).0 < n,
    decreases n,
{
    if n > 0 {
        lemma_matches_bounded(rs, q, (n - 1) as nat);
        let prev = matches_upto(rs, q, (n - 1) as nat);
        assert forall|k: int| 0 <= k < matches_upto(rs, q, n).len() implies (#[trigger] matches_upto(
            rs,
            q,
            n,
        )[k]).0 < n by {
            if k < prev.len() {
                assert(matches_upto(rs, q, n)[k] == prev[k]);
            }
        }
    }
}

proof fn lemma_present_count_bounded(qs: Seq<Seq<char>>, ws: Seq<Seq<char>>)
    ensures
        present_count(qs, ws) <= qs.len(),
    decreases qs.len(),
{
    if qs.len() > 0 {
        lemma_present_count_bounded(qs.drop_last(), ws);
    }
}

/// Approved memories retrievable by keyword, in the order they were
/// inserted.
#[derive(Debug)]
pub struct KeywordRetriever {
    records: Vec<KeywordMemoryRecord>,
}

impl Default for KeywordRetriever {
    fn default() -> (r: Self)
        ensures
            r.records_of().len() == 0,
    {
        KeywordRetriever { records: Vec::new() }
    }
}

impl KeywordRetriever {
    pub closed spec fn records_of(&self) -> Seq<KeywordMemoryRecord> {
        self.records@
    }

    /// Stores a valid record whose identifier is new.
    pub fn insert(&mut self, record: KeywordMemoryRecord) -> (r: Result<(), KeywordError>)
        ensures
            !record_valid(record) ==> r == Err::<(), KeywordError>(KeywordError::InvalidInput)
                && final(self).records_of() == old(self).records_of(),
            record_valid(record) && has_record_id(old(self).records_of(), record.id@) ==> r == Err::<
                (),
                KeywordError,
            >(KeywordError::DuplicateIdentity) && final(self).records_of() == old(self).records_of(),
            record_valid(record) && !has_record_id(old(self).records_of(), record.id@) ==> r is Ok
                && final(self).records_of() == old(self).records_of().push(record),
    {
        if record.id.as_str().unicode_len() == 0 || text_len(record.id.as_str()) > MAX_KEYWORD_ID_BYTES
            || blank(record.content.as_str()) || text_len(record.content.as_str())
            > MAX_KEYWORD_CONTENT_BYTES || record.importance < MIN_IMPORTANCE_KEY || record.importance
            > MAX_IMPORTANCE_KEY {
            return Err(KeywordError::InvalidInput);
        }
        let mut i: usize = 0;
        while i < self.records.len()
            invariant
                i <= self.records@.len(),
                self.records@ == old(self).records@,
                record_valid(record),
                forall|k: int| 0 <= k < i ==> (#[trigger] self.records@[k]).id@ != record.id@,
            decreases self.records@.len() - i,
        {
            if same_text(self.records[i].id.as_str(), record.id.as_str()) {
                assert(self.records@[i as int].id@ == record.id@);
                return Err(KeywordError::DuplicateIdentity);
            }
            i = i + 1;
        }
        self.records.push(record);
        Ok(())
    }

    /// The approved memories of the query's project and agent that hold its
    /// terms, ranked by how many terms they hold, then by importance, then
    /// by identifier, and kept while fewer than the result count are kept and
    /// their contents fit in the byte budget.
    pub fn query(&self, query: &KeywordQuery) -> (r: Result<Vec<KeywordResult>, KeywordError>)
        ensures
            query_refused(*query) ==> r == Err::<Vec<KeywordResult>, KeywordError>(
                KeywordError::InvalidInput,
            ),
            !query_refused(*query) ==> (r matches Ok(res) && exists|order: Seq<KeywordMatch>|
                #![trigger ranked(self.records_of(), order)]
                order.to_multiset() == matches_upto(
                    self.records_of(),
                    *query,
                    self.records_of().len(),
                ).to_multiset() && ranked(self.records_of(), order) && reports(
                    self.records_of(),
                    res@,
                    kept(self.records_of(), order, query.max_results as nat, query.max_bytes as nat).0,
                )),
    {
        let ghost rs = self.records@;
        if text_len(query.terms.as_str()) > MAX_QUERY_BYTES || blank(query.terms.as_str())
            || query.trace_id.as_str().unicode_len() == 0 || query.max_results == 0
            || query.max_results > MAX_QUERY_RESULTS || query.max_bytes == 0 {
            return Err(KeywordError::InvalidInput);
        }
        let terms = tokens(query.terms.as_str());
        if terms.len() == 0 || terms.len() > MAX_QUERY_TERMS {
            return Err(KeywordError::InvalidInput);
        }
        let ghost qs = terms_of(query.terms@);
        let mut found: Vec<KeywordMatch> = Vec::new();
        let mut i: usize = 0;
        while i < self.records.len()
            invariant
                rs == self.records@,
                i <= rs.len(),
                qs == terms_of(query.terms@),
                terms@.len() == qs.len() <= MAX_QUERY_TERMS,
                forall|k: int| 0 <= k < terms@.len() ==> #[trigger] terms@[k]@ == qs[k],
                found@ == matches_upto(rs, *query, i as nat),
            decreases rs.len() - i,
        {
            let rec = &self.records[i];
            if rec.project_id == query.project_id && crate::dedupe::same_agent(
                &rec.agent_id,
                &query.agent_id,
            ) && rec.status == MemoryStatus::Approved {
                let words = tokens(rec.content.as_str());
                let ghost ws = terms_of(rec.content@);
                let mut count: usize = 0;
                let mut t: usize = 0;
                assert(qs.take(0) =~= Seq::<Seq<char>>::empty());
                while t < terms.len()
                    invariant
                        t <= terms@.len(),
                        terms@.len() == qs.len() <= MAX_QUERY_TERMS,
                        forall|k: int| 0 <= k < terms@.len() ==> #[trigger] terms@[k]@ == qs[k],
                        words@.len() == ws.len(),
                        forall|k: int| 0 <= k < words@.len() ==> #[trigger] words@[k]@ == ws[k],
                        count == present_count(qs.take(t as int), ws),
                        count <= t,
                    decreases terms@.len() - t,
                {
                    let present = contains_term(&words, &terms[t]);
                    proof {
                        assert(qs.take(t + 1).drop_last() =~= qs.take(t as int));
                        assert(qs.take(t + 1).last() == qs[t as int]);
                        if present {
                            let w = choose|w: int| 0 <= w < words@.len() && (#[trigger] words@[w])@ == terms@[t as int]@;
                            assert(ws[w] == qs[t as int]);
                        } else {
                            assert forall|w: int| 0 <= w < ws.len() implies ws[w] != qs[t as int] by {
                                assert(words@[w]@ == ws[w]);
                            }
                        }
                    }
                    if present {
                        count = count + 1;
                    }
                    t = t + 1;
                }
                assert(qs.take(t as int) =~= qs);
                if count > 0 {
                    found.push((i, count));
                }
            }
            i = i + 1;
        }
        proof {
            lemma_matches_bounded(rs, *query, rs.len());
        }
        let ordered = rank(&self.records, found);
        let mut results: Vec<KeywordResult> = Vec::new();
        let mut used: usize = 0;
        let mut k: usize = 0;
        assert(ordered@.take(0) =~= Seq::<KeywordMatch>::empty());
        while k < ordered.len()
            invariant
                rs == self.records@,
                k <= ordered@.len(),
                forall|m: int| 0 <= m < ordered@.len() ==> (#[trigger] ordered@[m]).0 < rs.len(),
                reports(rs, results@, kept(rs, ordered@.take(k as int), query.max_results as nat, query.max_bytes as nat).0),
                used as nat == kept(rs, ordered@.take(k as int), query.max_results as nat, query.max_bytes as nat).1,
                used <= query.max_bytes,
            decreases ordered@.len() - k,
        {
            let x = ordered[k];
            let rec = &self.records[x.0];
            let size = text_len(rec.content.as_str());
            proof {
                assert(ordered@.take(k + 1).drop_last() =~= ordered@.take(k as int));
                assert(ordered@.take(k + 1).last() == x);
            }
            if results.len() < query.max_results && size <= query.max_bytes - used {
                let ghost before = results@;
                results.push(
                    KeywordResult {
                        id: rec.id.clone(),
                        content: rec.content.clone(),
                        match_count: x.1,
                        importance: rec.importance,
                    },
                );
                used = used + size;
                proof {
                    let chosen = kept(rs, ordered@.take(k + 1), query.max_results as nat, query.max_bytes as nat).0;
                    assert forall|m: int| 0 <= m < results@.len() implies {
                        let y = #[trigger] chosen[m];
                        &&& results@[m].id@ == rs[y.0 as int].id@
                        &&& results@[m].content@ == rs[y.0 as int].content@
                        &&& results@[m].match_count == y.1
                        &&& results@[m].importance == rs[y.0 as int].importance
                    } by {
                        if m < before.len() {
                            assert(results@[m] == before[m]);
                        }
                    }
                }
            }
            k = k + 1;
        }
        assert(ordered@.take(k as int) =~= ordered@);
        assert(found@ == matches_upto(self.records_of(), *query, self.records_of().len()));
        assert(ranked(self.records_of(), ordered@));
        Ok(results)
    }
}

proof fn lemma_kept(rs: Seq<KeywordMemoryRecord>, r: Seq<KeywordMatch>, max_results: nat, max_bytes: nat)
    ensures
        kept(rs, r, max_results, max_bytes).0.len() <= max_results,
        kept(rs, r, max_results, max_bytes).1 <= max_bytes,
        forall|k: int|
            0 <= k < kept(rs, r, max_results, max_bytes).0.len() ==> r.contains(
                #[trigger] kept(rs, r, max_results, max_bytes).0[k],
            ),
    decreases r.len(),
{
    if r.len() > 0 {
        lemma_kept(rs, r.drop_last(), max_results, max_bytes);
        let prev = kept(rs, r.drop_last(), max_results, max_bytes).0;
        let now = kept(rs, r, max_results, max_bytes).0;
        assert forall|k: int| 0 <= k < now.len() implies r.contains(#[trigger] now[k]) by {
            if k < prev.len() {
                assert(now[k] == prev[k]);
                let w = choose|w: int| 0 <= w < r.drop_last().len() && r.drop_last()[w] == prev[k];
                assert(r[w] == prev[k]);
            } else {
                assert(now[k] == r[r.len() - 1]);
            }
        }
    }
}

proof fn lemma_matches_in_scope(rs: Seq<KeywordMemoryRecord>, q: KeywordQuery, n: nat)
    requires
        n <= rs.len() <= usize::MAX,
        terms_of(q.terms@).len() <= MAX_QUERY_TERMS,
    ensures
        forall|k: int|
            0 <= k < matches_upto(rs, q, n).len() ==> {
                let x = #[trigger] matches_upto(rs, q, n)[k];
                &&& in_scope(rs[x.0 as int], q)
                &&& x.1 > 0
                &&& x.1 == present_count(terms_of(q.terms@), terms_of(rs[x.0 as int].content@))
            },
    decreases n,
{
    if n > 0 {
        lemma_matches_in_scope(rs, q, (n - 1) as nat);
        lemma_present_count_bounded(terms_of(q.terms@), terms_of(rs[n - 1].content@));
        let prev = matches_upto(rs, q, (n - 1) as nat);
        assert forall|k: int| 0 <= k < matches_upto(rs, q, n).len() implies {
            let x = #[trigger] matches_upto(rs, q, n)[k];
            &&& in_scope(rs[x.0 as int], q)
            &&& x.1 > 0
            &&& x.1 == present_count(terms_of(q.terms@), terms_of(rs[x.0 as int].content@))
        } by {
            if k < prev.len() {
                assert(matches_upto(rs, q, n)[k] == prev[k]);
            }
        }
    }
}

/// A query answers at most the result count it asks for, within its byte
/// budget, and only approved memories of its project and agent that hold at
/// least one of its terms, each reported with how many it holds.
pub proof fn law_keyword_results_are_bounded_and_in_scope(
    rs: Seq<KeywordMemoryRecord>,
    q: KeywordQuery,
    order: Seq<KeywordMatch>,
)
    requires
        rs.len() <= usize::MAX,
        terms_of(q.terms@).len() <= MAX_QUERY_TERMS,
        order.to_multiset() == matches_upto(rs, q, rs.len()).to_multiset(),
    ensures
        kept(rs, order, q.max_results as nat, q.max_bytes as nat).0.len() <= q.max_results,
        kept(rs, order, q.max_results as nat, q.max_bytes as nat).1 <= q.max_bytes,
        forall|k: int|
            0 <= k < kept(rs, order, q.max_results as nat, q.max_bytes as nat).0.len() ==> {
                let x = #[trigger] kept(rs, order, q.max_results as nat, q.max_bytes as nat).0[k];
                &&& in_scope(rs[x.0 as int], q)
                &&& x.1 > 0
                &&& x.1 == present_count(terms_of(q.terms@), terms_of(rs[x.0 as int].content@))
            },
{
    let chosen = kept(rs, order, q.max_results as nat, q.max_bytes as nat).0;
    let all = matches_upto(rs, q, rs.len());
    lemma_kept(rs, order, q.max_results as nat, q.max_bytes as nat);
    lemma_matches_in_scope(rs, q, rs.len());
    assert forall|k: int| 0 <= k < chosen.len() implies {
        let x = #[trigger] chosen[k];
        &&& in_scope(rs[x.0 as int], q)
        &&& x.1 > 0
        &&& x.1 == present_count(terms_of(q.terms@), terms_of(rs[x.0 as int].content@))
    } by {
        let x = chosen[k];
        assert(order.contains(x));
        vstd::seq_lib::to_multiset_contains(order, x);
        vstd::seq_lib::to_multiset_contains(all, x);
        let w = choose|w: int| 0 <= w < all.len() && all[w] == x;
        assert(all[w] == x);
    }
}

} // verus!
