//! Deterministic deduplication of memories before they are stored, by
//! scope, kind, canonical key and normalized content, without semantic or
//! vector matching.
use crate::ids::ProjectId;
use crate::memory::MemoryKind;
use crate::text::{blank, is_blank, same_text, text_len, utf8_len};
use crate::words::{normalize, normalized};
use vstd::prelude::*;
use vstd::string::StrSliceExecFns;

verus! {

/// Longest entry identifier, in UTF-8 bytes.
pub const MAX_DEDUPE_ID_BYTES: usize = 128;

/// Longest content, in UTF-8 bytes.
pub const MAX_DEDUPE_CONTENT_BYTES: usize = 16 * 1024;

#[derive(Debug, Clone, PartialEq, Eq)]
pub struct DedupeInput {
    pub project_id: ProjectId,
    pub agent_id: Option<String>,
    pub kind: MemoryKind,
    pub canonical_key: String,
    pub content: String,
    pub trace_id: String,
}

#[derive(Debug, PartialEq, Eq)]
pub struct DedupeEntry {
    pub id: String,
    pub project_id: ProjectId,
    pub agent_id: Option<String>,
    pub kind: MemoryKind,
    pub canonical_key: String,
    pub normalized_content: String,
}

/// The text of an optional agent identifier.
pub open spec fn agent_text(a: Option<String>) -> Option<Seq<char>> {
    match a {
        Some(s) => Some(s@),
        None => None,
    }
}

fn copy_agent(a: &Option<String>) -> (r: Option<String>)
    ensures
        r == *a,
{
    match a {
        Some(s) => Some(s.clone()),
        None => None,
    }
}

pub(crate) fn same_agent(a: &Option<String>, b: &Option<String>) -> (r: bool)
    ensures
        r == (agent_text(*a) == agent_text(*b)),
{
    match (a, b) {
        (Some(x), Some(y)) => same_text(x.as_str(), y.as_str()),
        (None, None) => true,
        _ => false,
    }
}

impl Clone for DedupeEntry {
    fn clone(&self) -> (r: Self)
        ensures
            r == *self,
    {
        DedupeEntry {
            id: self.id.clone(),
            project_id: self.project_id,
            agent_id: copy_agent(&self.agent_id),
            kind: self.kind,
            canonical_key: self.canonical_key.clone(),
            normalized_content: self.normalized_content.clone(),
        }
    }
}

impl DedupeEntry {
    /// The entry an input is stored as, under `id`: its key and content
    /// normalized.
    pub fn from_input(id: String, input: &DedupeInput) -> (r: Self)
        ensures
            r.id == id,
            r.project_id == input.project_id,
            agent_text(r.agent_id) == agent_text(input.agent_id),
            r.kind == input.kind,
            r.canonical_key@ == normalized(input.canonical_key@),
            r.normalized_content@ == normalized(input.content@),
    {
        DedupeEntry {
            id,
            project_id: input.project_id,
            agent_id: copy_agent(&input.agent_id),
            kind: input.kind,
            canonical_key: normalize(input.canonical_key.as_str()),
            normalized_content: normalize(input.content.as_str()),
        }
    }
}

#[derive(Debug, Clone, PartialEq, Eq)]
pub enum DedupeDecision {
    New,
    Duplicate { existing_id: String },
    Conflict { existing_id: String },
}

#[derive(Debug, Clone, Copy, PartialEq, Eq, Structural)]
pub enum DedupeError {
    InvalidEntry,
    DuplicateIdentity,
    NotFound,
}

impl DedupeError {
    /// The human-readable description of the error.
    pub fn message(&self) -> (r: &'static str)
        ensures
            r@ == (match *self {
                DedupeError::InvalidEntry => "dedupe entry is invalid"@,
                DedupeError::DuplicateIdentity => "dedupe identity is duplicated"@,
                DedupeError::NotFound => "dedupe entry is not found"@,
            }),
    {
        match self {
            DedupeError::InvalidEntry => "dedupe entry is invalid",
            DedupeError::DuplicateIdentity => "dedupe identity is duplicated",
            DedupeError::NotFound => "dedupe entry is not found",
        }
    }
}

/// The committed entries, in the order they were committed.
#[derive(Debug)]
pub struct DedupeIndex {
    entries: Vec<DedupeEntry>,
}

/// An entry may be stored: a short non-empty identifier, a non-empty key and
/// a non-empty content within the bound.
pub open spec fn entry_valid(e: DedupeEntry) -> bool {
    &&& e.id@.len() > 0
    &&& utf8_len(e.id@) <= MAX_DEDUPE_ID_BYTES
    &&& e.canonical_key@.len() > 0
    &&& e.normalized_content@.len() > 0
    &&& utf8_len(e.normalized_content@) <= MAX_DEDUPE_CONTENT_BYTES
}

pub open spec fn has_id(es: Seq<DedupeEntry>, id: Seq<char>) -> bool {
    exists|i: int| 0 <= i < es.len() && (#[trigger] es[i]).id@ == id
}

/// An input may be checked: a key and a content that are not blank, the
/// content within the bound, and a trace.
pub open spec fn input_valid(q: DedupeInput) -> bool {
    &&& !is_blank(q.canonical_key@)
    &&& !is_blank(q.content@)
    &&& utf8_len(q.content@) <= MAX_DEDUPE_CONTENT_BYTES
    &&& q.trace_id@.len() > 0
}

/// The entry is about the same scope, kind and normalized key as the input.
pub open spec fn same_subject(e: DedupeEntry, q: DedupeInput) -> bool {
    &&& e.project_id == q.project_id
    &&& agent_text(e.agent_id) == agent_text(q.agent_id)
    &&& e.kind == q.kind
    &&& e.canonical_key@ == normalized(q.canonical_key@)
}

/// Entry `i` is the first about the input's subject.
pub open spec fn first_subject(es: Seq<DedupeEntry>, q: DedupeInput, i: int) -> bool {
    &&& 0 <= i < es.len()
    &&& same_subject(es[i], q)
    &&& forall|j: int| 0 <= j < i ==> !#[trigger] same_subject(es[j], q)
}

impl Default for DedupeIndex {
    fn default() -> (r: Self)
        ensures
            r.entries_of().len() == 0,
    {
        DedupeIndex { entries: Vec::new() }
    }
}

impl DedupeIndex {
    pub closed spec fn entries_of(&self) -> Seq<DedupeEntry> {
        self.entries@
    }

    /// Stores a valid entry whose identifier is new.
    pub fn commit(&mut self, entry: DedupeEntry) -> (r: Result<(), DedupeError>)
        ensures
            !entry_valid(entry) ==> r == Err::<(), DedupeError>(DedupeError::InvalidEntry)
                && final(self).entries_of() == old(self).entries_of(),
            entry_valid(entry) && has_id(old(self).entries_of(), entry.id@) ==> r == Err::<
                (),
                DedupeError,
            >(DedupeError::DuplicateIdentity) && final(self).entries_of() == old(self).entries_of(),
            entry_valid(entry) && !has_id(old(self).entries_of(), entry.id@) ==> r is Ok
                && final(self).entries_of() == old(self).entries_of().push(entry),
    {
        if entry.id.as_str().unicode_len() == 0 || text_len(entry.id.as_str()) > MAX_DEDUPE_ID_BYTES
            || entry.canonical_key.as_str().unicode_len() == 0
            || entry.normalized_content.as_str().unicode_len() == 0 || text_len(
            entry.normalized_content.as_str(),
        ) > MAX_DEDUPE_CONTENT_BYTES {
            return Err(DedupeError::InvalidEntry);
        }
        let mut i: usize = 0;
        while i < self.entries.len()
            invariant
                i <= self.entries@.len(),
                self.entries@ == old(self).entries@,
                entry_valid(entry),
                forall|k: int| 0 <= k < i ==> (#[trigger] self.entries@[k]).id@ != entry.id@,
            decreases self.entries@.len() - i,
        {
            if same_text(self.entries[i].id.as_str(), entry.id.as_str()) {
                assert(self.entries@[i as int].id@ == entry.id@);
                return Err(DedupeError::DuplicateIdentity);
            }
            i = i + 1;
        }
        self.entries.push(entry);
        Ok(())
    }

    /// Decides whether an input is new, a duplicate of the first entry about
    /// its subject (same normalized content) or in conflict with it.
    pub fn decide(&self, input: &DedupeInput) -> (r: Result<DedupeDecision, DedupeError>)
        ensures
            !input_valid(*input) ==> r == Err::<DedupeDecision, DedupeError>(DedupeError::InvalidEntry),
            input_valid(*input) ==> match r {
                Err(_) => false,
                Ok(DedupeDecision::New) => forall|j: int|
                    0 <= j < self.entries_of().len() ==> !#[trigger] same_subject(
                        self.entries_of()[j],
                        *input,
                    ),
                Ok(DedupeDecision::Duplicate { existing_id }) => exists|i: int|
                    first_subject(self.entries_of(), *input, i) && existing_id@ == self.entries_of()[i].id@
                        && self.entries_of()[i].normalized_content@ == normalized(input.content@),
                Ok(DedupeDecision::Conflict { existing_id }) => exists|i: int|
                    first_subject(self.entries_of(), *input, i) && existing_id@ == self.entries_of()[i].id@
                        && self.entries_of()[i].normalized_content@ != normalized(input.content@),
            },
    {
        if blank(input.canonical_key.as_str()) || blank(input.content.as_str()) || text_len(
            input.content.as_str(),
        ) > MAX_DEDUPE_CONTENT_BYTES || input.trace_id.as_str().unicode_len() == 0 {
            return Err(DedupeError::InvalidEntry);
        }
        let key = normalize(input.canonical_key.as_str());
        let content = normalize(input.content.as_str());
        let mut i: usize = 0;
        while i < self.entries.len()
            invariant
                i <= self.entries@.len(),
                input_valid(*input),
                key@ == normalized(input.canonical_key@),
                content@ == normalized(input.content@),
                forall|k: int| 0 <= k < i ==> !#[trigger] same_subject(self.entries@[k], *input),
            decreases self.entries@.len() - i,
        {
            let e = &self.entries[i];
            if e.project_id == input.project_id && same_agent(&e.agent_id, &input.agent_id) && e.kind
                == input.kind && same_text(e.canonical_key.as_str(), key.as_str()) {
                assert(first_subject(self.entries_of(), *input, i as int));
                if same_text(e.normalized_content.as_str(), content.as_str()) {
                    return Ok(DedupeDecision::Duplicate { existing_id: e.id.clone() });
                } else {
                    return Ok(DedupeDecision::Conflict { existing_id: e.id.clone() });
                }
            }
            i = i + 1;
        }
        Ok(DedupeDecision::New)
    }

    /// Removes every entry with identifier `id`; refused when there is
    /// none.
    pub fn rollback(&mut self, id: &str) -> (r: Result<(), DedupeError>)
        ensures
            has_id(old(self).entries_of(), id@) ==> r is Ok && final(self).entries_of()
                == old(self).entries_of().filter(|e: DedupeEntry| e.id@ != id@),
            !has_id(old(self).entries_of(), id@) ==> r == Err::<(), DedupeError>(DedupeError::NotFound)
                && final(self).entries_of() == old(self).entries_of(),
    {
        let ghost pred = |e: DedupeEntry| e.id@ != id@;
        let mut kept: Vec<DedupeEntry> = Vec::new();
        let mut removed = false;
        let mut i: usize = 0;
        while i < self.entries.len()
            invariant
                i <= self.entries@.len(),
                pred == (|e: DedupeEntry| e.id@ != id@),
                kept@ == self.entries@.take(i as int).filter(pred),
                removed == has_id(self.entries@.take(i as int), id@),
                !removed ==> kept@ == self.entries@.take(i as int),
            decreases self.entries@.len() - i,
        {
            let ghost t = self.entries@.take(i as int);
            assert(self.entries@.take(i + 1) =~= t.push(self.entries@[i as int]));
            proof {
                t.lemma_filter_push(self.entries@[i as int], pred);
            }
            if same_text(self.entries[i].id.as_str(), id) {
                assert(self.entries@.take(i + 1)[i as int].id@ == id@);
                removed = true;
            } else {
                let e = self.entries[i].clone();
                kept.push(e);
            }
            i = i + 1;
        }
        assert(self.entries@.take(i as int) =~= self.entries@);
        if !removed {
            return Err(DedupeError::NotFound);
        }
        self.entries = kept;
        Ok(())
    }
}

/// An input whose subject the index does not know yet, once committed as
/// the entry made from it, is then decided a duplicate of that entry.
pub proof fn law_committed_input_is_a_duplicate(es: Seq<DedupeEntry>, q: DedupeInput, e: DedupeEntry)
    requires
        forall|j: int| 0 <= j < es.len() ==> !#[trigger] same_subject(es[j], q),
        e.project_id == q.project_id,
        agent_text(e.agent_id) == agent_text(q.agent_id),
        e.kind == q.kind,
        e.canonical_key@ == normalized(q.canonical_key@),
        e.normalized_content@ == normalized(q.content@),
    ensures
        first_subject(es.push(e), q, es.len() as int),
        es.push(e)[es.len() as int].normalized_content@ == normalized(q.content@),
{
    assert forall|j: int| 0 <= j < es.len() implies !#[trigger] same_subject(es.push(e)[j], q) by {
        assert(es.push(e)[j] == es[j]);
    }
}

} // verus!
