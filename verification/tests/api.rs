use rust_vm::service::SessionService;
use rust_vm::store::{StoreReply, StoreRequest};
use rust_vm::{
    wasm_clear_session, wasm_commit_contract, wasm_get_session_stats, wasm_get_spans,
    wasm_get_version, wasm_health_check, wasm_init_session, wasm_process_prompt,
};

fn parse(text: &str) -> serde_json::Value {
    serde_json::from_str(text).unwrap()
}

#[test]
fn sessions_are_started_under_distinct_identifiers() {
    let mut service = SessionService::new();
    let mut ids: Vec<String> = Vec::new();
    for _ in 0..50 {
        let start = wasm_init_session(&mut service).unwrap();
        assert_eq!(start.session_id.len(), 36);
        match start.request {
            StoreRequest::SaveSession { summary } => {
                let parsed = parse(&summary);
                assert_eq!(parsed["id"], start.session_id.as_str());
                assert_eq!(parsed["spans_count"], 0);
                assert_eq!(parsed["created_at"], parsed["last_activity"]);
            },
            other => panic!("unexpected request {:?}", other),
        }
        assert!(!ids.contains(&start.session_id));
        ids.push(start.session_id);
    }
    assert_eq!(parse(&wasm_health_check(&service))["memory_sessions"], 50);
}

#[test]
fn a_prompt_is_answered_and_recorded() {
    let mut service = SessionService::new();
    let id = wasm_init_session(&mut service).unwrap().session_id;
    let outcome = wasm_process_prompt(&mut service, &id, "Olá");
    assert_eq!(outcome.response, "Olá! Como posso ajudar você hoje no FlipApp?");
    assert!(outcome.appended);
    let span = match outcome.request {
        StoreRequest::AddSpan { span } => span,
        other => panic!("unexpected request {:?}", other),
    };
    let parsed = parse(&span);
    assert_eq!(parsed["type"], "llm_response");
    assert_eq!(parsed["session_id"], id.as_str());
    assert_eq!(parsed["prompt"], "Olá");
    assert_eq!(parsed["content"], "Olá! Como posso ajudar você hoje no FlipApp?");
    assert_eq!(parsed["model"], "flipapp-sim-v1");
    assert_eq!(parsed["tokens_input"], 1);
    assert_eq!(parsed["tokens_output"], 12);
    assert_eq!(parsed["processing_time_ms"], 202);
    assert_eq!(parsed["cost_usd"].as_f64(), Some(0.00075));
    assert_eq!(parsed["id"].as_str().unwrap().len(), 36);

    let stats = parse(&wasm_get_session_stats(&service, &id));
    assert_eq!(stats["session_id"], id.as_str());
    assert_eq!(stats["total_spans"], 1);
    assert_eq!(stats["span_types"]["llm_response"], 1);
    assert_eq!(stats["memory_usage_kb"], 0);

    assert_eq!(wasm_get_spans(&service, &id, &StoreReply::Failed), format!("[{}]", span));
    assert_eq!(
        wasm_get_spans(&service, &id, &StoreReply::Payload("[]".to_string())),
        "[]"
    );
}

#[test]
fn a_contract_is_answered_as_json() {
    let reply = wasm_commit_contract("");
    let response = parse(&reply.response);
    assert_eq!(response["status"], "error");
    assert_eq!(response["message"], "Falha na validação do contrato");
    assert_eq!(response["errors"][0], "Contrato vazio");
    assert_eq!(response["errors"][1], "Tipo de contrato não especificado");
    let record = match reply.request {
        StoreRequest::SaveContract { record } => parse(&record),
        other => panic!("unexpected request {:?}", other),
    };
    assert_eq!(record["type"], "contract_commit");
    assert_eq!(record["status"], "error");
    assert_eq!(record["contract_text"], "");
    assert_eq!(record["id"], response["span_id"]);
    assert_eq!(record["timestamp"], response["timestamp"]);
    assert_eq!(record["processing_node"], "wasm-simulator");
    assert_eq!(record["validation_details"]["content_length"], 0);

    let reply = wasm_commit_contract("type: note");
    let response = parse(&reply.response);
    assert_eq!(response["status"], "ok");
    assert_eq!(response["message"], "Contrato processado com sucesso");
    assert_eq!(response["estimated_execution"], "2-3 business days");
    assert_eq!(response["validation"]["estimated_complexity"], "low");
    assert!(response.get("errors").is_none());

    let reply = wasm_commit_contract("type: payment\namount: 10");
    let response = parse(&reply.response);
    assert_eq!(response["status"], "error");
    assert_eq!(response["errors"][0], "Moeda não especificada para transação monetária");
    assert!(response.get("validation").is_none());
}

#[test]
fn statistics_of_an_unknown_session_report_that_it_was_not_found() {
    let service = SessionService::new();
    assert_eq!(
        wasm_get_session_stats(&service, "never-created"),
        "{\"error\":\"Sessão não encontrada\"}"
    );
}

#[test]
fn a_session_is_cleared_from_memory() {
    let mut service = SessionService::new();
    let id = wasm_init_session(&mut service).unwrap().session_id;
    assert!(wasm_clear_session(&mut service, &id));
    assert!(!wasm_clear_session(&mut service, &id));
    assert_eq!(
        wasm_get_session_stats(&service, &id),
        "{\"error\":\"Sessão não encontrada\"}"
    );
    assert_eq!(wasm_get_spans(&service, &id, &StoreReply::Unusable), "[]");
    assert_eq!(parse(&wasm_health_check(&service))["memory_sessions"], 0);
}

#[test]
fn health_reports_status_version_and_time() {
    let service = SessionService::new();
    let health = parse(&wasm_health_check(&service));
    assert_eq!(health["status"], "healthy");
    assert_eq!(health["version"], "1.0.0-production");
    assert_eq!(health["memory_sessions"], 0);
    assert!(health["timestamp"].as_str().unwrap().ends_with("+00:00"));
    assert_eq!(wasm_get_version(), "1.0.0-production");
}
