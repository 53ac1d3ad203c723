use rust_vm::clock::Timestamp;
use rust_vm::contract::{validate_contract_yaml, ContractStatus};
use rust_vm::registry::{Registry, SessionData};
use rust_vm::span::{spans_to_json, Span, SpanBody};

fn at(secs: i64) -> Timestamp {
    Timestamp::from_unix(secs, 0).unwrap()
}

fn reply_span(id: &str, session: &str, secs: i64) -> Span {
    Span {
        id: id.to_string(),
        timestamp: at(secs),
        body: SpanBody::LlmResponse {
            session_id: session.to_string(),
            prompt: "p".to_string(),
            content: "c".to_string(),
            cost_units: 9,
            tokens_input: 1,
            tokens_output: 1,
            processing_time_ms: 200,
        },
    }
}

#[test]
fn a_new_registry_has_no_sessions() {
    let registry = Registry::new();
    assert_eq!(registry.count(), 0);
    assert!(!registry.contains("S1"));
    assert!(registry.get("S1").is_none());
}

#[test]
fn a_session_is_created_once_under_an_identifier() {
    let mut registry = Registry::new();
    assert!(registry.create("S1".to_string(), at(100)));
    assert!(!registry.create("S1".to_string(), at(200)));
    assert_eq!(registry.count(), 1);
    let session = registry.get("S1").unwrap();
    assert_eq!(session.id(), "S1");
    assert_eq!(session.created_at().unix_seconds(), 100);
    assert_eq!(session.last_activity().unix_seconds(), 100);
    assert!(session.spans().is_empty());
    assert!(registry.create("S2".to_string(), at(300)));
    assert_eq!(registry.count(), 2);
}

#[test]
fn activity_moves_the_last_activity_forward_only() {
    let mut registry = Registry::new();
    registry.create("S1".to_string(), at(100));
    assert!(registry.touch("S1", at(150)));
    assert_eq!(registry.get("S1").unwrap().last_activity().unix_seconds(), 150);
    assert!(registry.touch("S1", at(120)));
    assert_eq!(registry.get("S1").unwrap().last_activity().unix_seconds(), 150);
    assert!(registry.touch("S1", at(50)));
    let session = registry.get("S1").unwrap();
    assert_eq!(session.last_activity().unix_seconds(), 150);
    assert_eq!(session.created_at().unix_seconds(), 100);
    assert!(session.last_activity().is_at_or_after(&session.created_at()));
}

#[test]
fn activity_on_an_unknown_session_changes_nothing() {
    let mut registry = Registry::new();
    registry.create("S1".to_string(), at(100));
    assert!(!registry.touch("S2", at(150)));
    assert_eq!(registry.count(), 1);
    assert_eq!(registry.get("S1").unwrap().last_activity().unix_seconds(), 100);
}

#[test]
fn spans_are_kept_in_the_order_of_their_appending() {
    let mut registry = Registry::new();
    registry.create("S1".to_string(), at(100));
    registry.create("S2".to_string(), at(100));
    assert!(registry.append("S1", reply_span("a", "S1", 101)));
    assert!(registry.append("S2", reply_span("x", "S2", 102)));
    assert!(registry.append("S1", reply_span("b", "S1", 103)));
    assert!(registry.append("S1", reply_span("a", "S1", 104)));
    let spans = registry.get("S1").unwrap().spans();
    let ids: Vec<&str> = spans.iter().map(|span| span.id.as_str()).collect();
    assert_eq!(ids, vec!["a", "b", "a"]);
    assert_eq!(registry.get("S2").unwrap().spans().len(), 1);
}

#[test]
fn appending_to_an_unknown_session_creates_none() {
    let mut registry = Registry::new();
    assert!(!registry.append("S1", reply_span("a", "S1", 101)));
    assert_eq!(registry.count(), 0);
    assert!(registry.get("S1").is_none());
}

#[test]
fn a_removed_session_is_gone_with_its_spans() {
    let mut registry = Registry::new();
    registry.create("S1".to_string(), at(100));
    registry.create("S2".to_string(), at(100));
    registry.create("S3".to_string(), at(100));
    registry.append("S2", reply_span("a", "S2", 101));
    assert!(registry.remove("S2"));
    assert!(!registry.remove("S2"));
    assert_eq!(registry.count(), 2);
    assert!(registry.get("S2").is_none());
    assert!(registry.contains("S1"));
    assert!(registry.contains("S3"));
    assert!(registry.create("S2".to_string(), at(200)));
    assert!(registry.get("S2").unwrap().spans().is_empty());
}

#[test]
fn the_registry_reports_statistics_of_live_sessions_only() {
    let mut registry = Registry::new();
    registry.create("S1".to_string(), at(100));
    registry.append("S1", reply_span("a", "S1", 101));
    let stats = registry.stats("S1").unwrap();
    assert_eq!(stats.session_id, "S1");
    assert_eq!(stats.total_spans, 1);
    assert!(registry.stats("S2").is_none());
}

#[test]
fn a_session_records_activity_and_spans() {
    let mut session = SessionData::new("S9".to_string(), at(10));
    session.update_activity(at(20));
    session.push_span(reply_span("a", "S9", 21));
    assert_eq!(session.id(), "S9");
    assert_eq!(session.created_at().unix_seconds(), 10);
    assert_eq!(session.last_activity().unix_seconds(), 20);
    assert_eq!(session.spans().len(), 1);
}

#[test]
fn a_span_is_written_with_its_type_and_members_by_key() {
    let span = reply_span("a", "S1", 1_700_000_000);
    assert_eq!(span.kind(), "llm_response");
    assert_eq!(
        span.to_json(),
        "{\"content\":\"c\",\"cost_usd\":0.00009,\"id\":\"a\",\"model\":\"flipapp-sim-v1\",\"processing_time_ms\":200,\"prompt\":\"p\",\"session_id\":\"S1\",\"timestamp\":\"2023-11-14T22:13:20+00:00\",\"tokens_input\":1,\"tokens_output\":1,\"type\":\"llm_response\"}"
    );
    let audit = Span {
        id: "c".to_string(),
        timestamp: at(0),
        body: SpanBody::ContractCommit {
            contract_text: "type: \"x\"".to_string(),
            status: ContractStatus::Accepted,
            details: validate_contract_yaml("type: \"x\"", at(1)).details,
        },
    };
    assert_eq!(audit.kind(), "contract_commit");
    assert_eq!(
        audit.to_json(),
        "{\"contract_text\":\"type: \\\"x\\\"\",\"id\":\"c\",\"processing_node\":\"wasm-simulator\",\"status\":\"ok\",\"timestamp\":\"1970-01-01T00:00:00+00:00\",\"type\":\"contract_commit\",\"validation_details\":{\"content_length\":9,\"estimated_complexity\":\"low\",\"validation_timestamp\":\"1970-01-01T00:00:01+00:00\"}}"
    );
}

#[test]
fn a_cost_of_whole_dollars_is_written_as_a_number() {
    let mut span = reply_span("a", "S1", 0);
    if let SpanBody::LlmResponse { cost_units, .. } = &mut span.body {
        *cost_units = 250_000;
    }
    let parsed: serde_json::Value = serde_json::from_str(&span.to_json()).unwrap();
    assert_eq!(parsed["cost_usd"].as_f64(), Some(2.5));
    assert_eq!(parsed["tokens_input"].as_u64(), Some(1));
}

#[test]
fn spans_are_written_as_an_array_in_order() {
    let none: Vec<Span> = Vec::new();
    assert_eq!(spans_to_json(&none), "[]");
    let spans = vec![reply_span("a", "S1", 0), reply_span("b", "S1", 1)];
    let expected = format!("[{},{}]", spans[0].to_json(), spans[1].to_json());
    assert_eq!(spans_to_json(&spans), expected);
}
