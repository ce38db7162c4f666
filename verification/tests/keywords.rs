use agent_core::ids::ProjectId;
use agent_core::keyword::{
    tokens, KeywordError, KeywordMemoryRecord, KeywordQuery, KeywordRetriever, MAX_IMPORTANCE_KEY,
    MIN_IMPORTANCE_KEY,
};
use agent_core::memory::{MemoryKind, MemoryStatus};

fn key(value: f32) -> u32 {
    let bits = value.to_bits();
    if bits & 0x8000_0000 != 0 {
        !bits
    } else {
        bits ^ 0x8000_0000
    }
}

fn record(id: &str, content: &str, importance: f32) -> KeywordMemoryRecord {
    KeywordMemoryRecord {
        id: id.into(),
        project_id: ProjectId::from_u128(1),
        agent_id: Some("agent-a".into()),
        kind: MemoryKind(1),
        status: MemoryStatus::Approved,
        content: content.into(),
        importance: key(importance),
    }
}

fn query(terms: &str, max_results: usize, max_bytes: usize) -> KeywordQuery {
    KeywordQuery {
        project_id: ProjectId::from_u128(1),
        agent_id: Some("agent-a".into()),
        terms: terms.into(),
        max_results,
        max_bytes,
        trace_id: "trace-1".into(),
    }
}

#[test]
fn importance_keys_span_zero_to_one() {
    assert_eq!(key(-0.0), MIN_IMPORTANCE_KEY);
    assert_eq!(key(1.0), MAX_IMPORTANCE_KEY);
    assert!(key(0.0) < key(0.5) && key(0.5) < key(1.0));
}

#[test]
fn terms_are_alphanumeric_runs_in_lower_case() {
    assert_eq!(tokens("Rust's borrow-checker, v2_beta!"), vec!["rust", "s", "borrow", "checker", "v2_beta"]);
    assert!(tokens("!!! ---").is_empty());
}

#[test]
fn queries_rank_by_terms_then_importance_then_identifier() {
    let mut retriever = KeywordRetriever::default();
    retriever.insert(record("b", "rust tips and tricks", 0.5)).unwrap();
    retriever.insert(record("a", "Rust borrow checker rules", 0.2)).unwrap();
    retriever.insert(record("c", "more rust", 0.5)).unwrap();
    retriever.insert(record("d", "unrelated note", 1.0)).unwrap();
    let mut foreign = record("e", "rust borrow", 1.0);
    foreign.agent_id = None;
    retriever.insert(foreign).unwrap();
    let mut pending = record("f", "rust borrow", 1.0);
    pending.status = MemoryStatus::Candidate;
    retriever.insert(pending).unwrap();

    let results = retriever.query(&query("RUST borrow", 10, 1000)).unwrap();
    let ids: Vec<&str> = results.iter().map(|r| r.id.as_str()).collect();
    assert_eq!(ids, vec!["a", "b", "c"]);
    assert_eq!(results[0].match_count, 2);
    assert_eq!(results[1].match_count, 1);
    assert_eq!(results[1].importance, key(0.5));
    assert_eq!(results[0].content, "Rust borrow checker rules");
}

#[test]
fn queries_stop_at_the_result_count_and_skip_what_does_not_fit() {
    let mut retriever = KeywordRetriever::default();
    retriever.insert(record("a", "rust with a rather long content body", 1.0)).unwrap();
    retriever.insert(record("b", "rust short", 0.5)).unwrap();
    retriever.insert(record("c", "rust tiny", 0.2)).unwrap();
    let results = retriever.query(&query("rust", 10, 15)).unwrap();
    let ids: Vec<&str> = results.iter().map(|r| r.id.as_str()).collect();
    assert_eq!(ids, vec!["b"]);
    let results = retriever.query(&query("rust", 1, 1000)).unwrap();
    assert_eq!(results.len(), 1);
    assert_eq!(results[0].id, "a");
}

#[test]
fn keyword_inputs_fail_closed() {
    let mut retriever = KeywordRetriever::default();
    assert_eq!(retriever.insert(record("", "x", 0.5)), Err(KeywordError::InvalidInput));
    assert_eq!(retriever.insert(record("a", "   ", 0.5)), Err(KeywordError::InvalidInput));
    let mut negative = record("a", "x", 0.5);
    negative.importance = key(-0.5);
    assert_eq!(retriever.insert(negative), Err(KeywordError::InvalidInput));
    let mut above = record("a", "x", 0.5);
    above.importance = key(1.5);
    assert_eq!(retriever.insert(above), Err(KeywordError::InvalidInput));
    retriever.insert(record("a", "x", 0.5)).unwrap();
    assert_eq!(retriever.insert(record("a", "y", 0.5)), Err(KeywordError::DuplicateIdentity));
    assert_eq!(retriever.query(&query("  ", 1, 1)), Err(KeywordError::InvalidInput));
    assert_eq!(retriever.query(&query("x", 0, 1)), Err(KeywordError::InvalidInput));
    assert_eq!(retriever.query(&query("x", 101, 1)), Err(KeywordError::InvalidInput));
    assert_eq!(retriever.query(&query("x", 1, 0)), Err(KeywordError::InvalidInput));
    assert_eq!(retriever.query(&query("?!", 1, 1)), Err(KeywordError::InvalidInput));
    let many: Vec<String> = (0..65).map(|n| format!("t{n}")).collect();
    assert_eq!(retriever.query(&query(&many.join(" "), 1, 1)), Err(KeywordError::InvalidInput));
    let mut untraced = query("x", 1, 1);
    untraced.trace_id = String::new();
    assert_eq!(retriever.query(&untraced), Err(KeywordError::InvalidInput));
    assert_eq!(KeywordError::DuplicateIdentity.message(), "keyword identity is duplicated");
}
