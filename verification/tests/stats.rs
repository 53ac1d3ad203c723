use rust_vm::clock::Timestamp;
use rust_vm::contract::{validate_contract_yaml, ContractStatus};
use rust_vm::registry::SessionData;
use rust_vm::span::{Span, SpanBody};
use rust_vm::stats::{count_span_types, estimate_memory_usage, SessionStats, TypeCount};

fn at(secs: i64) -> Timestamp {
    Timestamp::from_unix(secs, 0).unwrap()
}

fn reply_span(id: &str, content: &str) -> Span {
    Span {
        id: id.to_string(),
        timestamp: at(1_700_000_000),
        body: SpanBody::LlmResponse {
            session_id: "S1".to_string(),
            prompt: "p".to_string(),
            content: content.to_string(),
            cost_units: 9,
            tokens_input: 1,
            tokens_output: 1,
            processing_time_ms: 200,
        },
    }
}

fn audit_span(id: &str) -> Span {
    Span {
        id: id.to_string(),
        timestamp: at(1_700_000_000),
        body: SpanBody::ContractCommit {
            contract_text: "type: note".to_string(),
            status: ContractStatus::Accepted,
            details: validate_contract_yaml("type: note", at(1_700_000_000)).details,
        },
    }
}

fn count_of(counts: &[TypeCount], kind: &str) -> Option<usize> {
    let found: Vec<&TypeCount> = counts.iter().filter(|entry| entry.kind == kind).collect();
    assert!(found.len() <= 1, "type {} has more than one entry", kind);
    found.first().map(|entry| entry.count)
}

#[test]
fn no_spans_have_no_types() {
    let none: Vec<Span> = Vec::new();
    assert!(count_span_types(&none).is_empty());
    assert_eq!(estimate_memory_usage(&none), 0);
}

#[test]
fn spans_are_counted_by_type() {
    let spans = vec![
        reply_span("a", "x"),
        audit_span("b"),
        reply_span("c", "y"),
        reply_span("d", "z"),
        audit_span("e"),
    ];
    let counts = count_span_types(&spans);
    assert_eq!(counts.len(), 2);
    assert_eq!(count_of(&counts, "llm_response"), Some(3));
    assert_eq!(count_of(&counts, "contract_commit"), Some(2));
}

#[test]
fn only_types_that_occur_are_counted() {
    let spans = vec![reply_span("a", "x"), reply_span("b", "y")];
    let counts = count_span_types(&spans);
    assert_eq!(counts.len(), 1);
    assert_eq!(count_of(&counts, "llm_response"), Some(2));
    assert_eq!(count_of(&counts, "contract_commit"), None);
}

#[test]
fn memory_usage_is_the_json_size_in_whole_kilobytes() {
    let one = vec![reply_span("a", "x")];
    assert!(one[0].to_json().len() < 1024);
    assert_eq!(estimate_memory_usage(&one), 0);

    let padded = "x".repeat(1024);
    let big = vec![reply_span("a", &padded)];
    assert_eq!(estimate_memory_usage(&big), 1);

    let mut many = Vec::new();
    let mut bytes = 0;
    for i in 0..40 {
        let span = reply_span(&format!("span-{}", i), "some content");
        bytes += span.to_json().len();
        many.push(span);
    }
    assert!(bytes / 1024 >= 5);
    assert_eq!(estimate_memory_usage(&many), (bytes / 1024) as u64);
}

#[test]
fn the_bytes_of_all_spans_are_added_before_they_are_divided() {
    let padded = "x".repeat(600);
    let one = vec![reply_span("a", &padded)];
    let two = vec![reply_span("a", &padded), reply_span("b", &padded)];
    assert_eq!(estimate_memory_usage(&one), 0);
    assert_eq!(estimate_memory_usage(&two), 1);
}

#[test]
fn statistics_describe_a_session() {
    let mut session = SessionData::new("S1".to_string(), at(1_700_000_000));
    session.update_activity(at(1_700_000_030));
    session.push_span(reply_span("a", "x"));
    session.push_span(audit_span("b"));
    session.push_span(reply_span("c", "y"));
    let stats = SessionStats::of(&session);
    assert_eq!(stats.session_id, "S1");
    assert_eq!(stats.created_at.unix_seconds(), 1_700_000_000);
    assert_eq!(stats.last_activity.unix_seconds(), 1_700_000_030);
    assert_eq!(stats.total_spans, 3);
    assert_eq!(count_of(&stats.span_types, "llm_response"), Some(2));
    assert_eq!(count_of(&stats.span_types, "contract_commit"), Some(1));
    assert_eq!(stats.memory_usage_kb, 0);
    assert_eq!(
        stats.to_json(),
        "{\"created_at\":\"2023-11-14T22:13:20+00:00\",\"last_activity\":\"2023-11-14T22:13:50+00:00\",\"memory_usage_kb\":0,\"session_id\":\"S1\",\"span_types\":{\"contract_commit\":1,\"llm_response\":2},\"total_spans\":3}"
    );
}

#[test]
fn statistics_of_a_session_without_spans_have_an_empty_histogram() {
    let session = SessionData::new("S1".to_string(), at(0));
    let stats = SessionStats::of(&session);
    assert_eq!(
        stats.to_json(),
        "{\"created_at\":\"1970-01-01T00:00:00+00:00\",\"last_activity\":\"1970-01-01T00:00:00+00:00\",\"memory_usage_kb\":0,\"session_id\":\"S1\",\"span_types\":{},\"total_spans\":0}"
    );
}
