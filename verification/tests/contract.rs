use rust_vm::clock::Timestamp;
use rust_vm::contract::{
    validate_contract_yaml, Complexity, ContractError, ContractResponse, ContractStatus,
    DangerousPattern,
};
use rust_vm::service::SessionService;
use rust_vm::store::StoreRequest;

fn at(secs: i64) -> Timestamp {
    Timestamp::from_unix(secs, 0).unwrap()
}

#[test]
fn an_empty_document_is_rejected_as_empty() {
    let result = validate_contract_yaml("", at(1_700_000_000));
    assert!(!result.is_valid);
    assert_eq!(result.errors, vec![ContractError::Empty, ContractError::MissingType]);
    let outcome =
        SessionService::commit_contract("", "c-1".to_string(), at(1_700_000_000), at(1_700_000_001));
    assert_eq!(outcome.response.status, ContractStatus::Rejected);
    assert!(outcome.response.errors.contains(&ContractError::Empty));
    assert_eq!(ContractError::Empty.message(), "Contrato vazio");
}

#[test]
fn a_document_of_whitespace_is_rejected_as_empty() {
    let result = validate_contract_yaml("  \n\t\u{a0} ", at(1_700_000_000));
    assert_eq!(result.errors, vec![ContractError::Empty, ContractError::MissingType]);
}

#[test]
fn a_payment_without_currency_is_rejected() {
    let result = validate_contract_yaml("type: payment\namount: 10", at(1_700_000_000));
    assert!(!result.is_valid);
    assert_eq!(result.errors, vec![ContractError::MissingCurrency]);
    assert!(result.details.has_amount);
    let outcome = SessionService::commit_contract(
        "type: payment\namount: 10",
        "c-2".to_string(),
        at(1_700_000_000),
        at(1_700_000_001),
    );
    assert_eq!(outcome.response.status, ContractStatus::Rejected);
    assert_eq!(outcome.response.errors, vec![ContractError::MissingCurrency]);
}

#[test]
fn a_payment_with_currency_is_accepted() {
    let result = validate_contract_yaml("type: payment\namount: 10\ncurrency: BRL", at(5));
    assert!(result.is_valid);
    assert!(result.errors.is_empty());
    assert!(result.details.has_amount);
    assert_eq!(result.details.content_length, 38);
}

#[test]
fn a_plain_note_is_accepted() {
    let result = validate_contract_yaml("type: note", at(1_700_000_000));
    assert!(result.is_valid);
    assert!(result.errors.is_empty());
    assert!(!result.details.has_amount);
    assert_eq!(result.details.content_length, 10);
    assert_eq!(result.details.complexity, Complexity::Low);
    assert_eq!(result.details.validated_at.unix_seconds(), 1_700_000_000);
    let outcome = SessionService::commit_contract(
        "type: note",
        "c-3".to_string(),
        at(1_700_000_000),
        at(1_700_000_001),
    );
    assert_eq!(outcome.response.status, ContractStatus::Accepted);
    assert!(outcome.response.errors.is_empty());
}

#[test]
fn a_document_without_type_is_rejected() {
    let result = validate_contract_yaml("name: something", at(0));
    assert_eq!(result.errors, vec![ContractError::MissingType]);
    assert_eq!(ContractError::MissingType.message(), "Tipo de contrato não especificado");
}

#[test]
fn a_document_may_be_10000_bytes_long_and_no_longer() {
    let mut text = String::from("type: x\n");
    while text.len() < 10000 {
        text.push('a');
    }
    let result = validate_contract_yaml(&text, at(0));
    assert!(result.is_valid);
    assert_eq!(result.details.content_length, 10000);
    assert_eq!(result.details.complexity, Complexity::High);
    text.push('a');
    let result = validate_contract_yaml(&text, at(0));
    assert_eq!(result.errors, vec![ContractError::TooLong]);
    assert_eq!(ContractError::TooLong.message(), "Contrato muito longo");
}

#[test]
fn a_document_is_complex_above_500_bytes() {
    let mut text = String::from("type: x\n");
    while text.len() < 500 {
        text.push('a');
    }
    assert_eq!(validate_contract_yaml(&text, at(0)).details.complexity, Complexity::Low);
    text.push('a');
    assert_eq!(validate_contract_yaml(&text, at(0)).details.complexity, Complexity::High);
}

#[test]
fn dangerous_patterns_are_found_in_any_case() {
    let result = validate_contract_yaml("type: a\nbody: <SCRIPT>alert(1)</script>", at(0));
    assert_eq!(result.errors, vec![ContractError::Dangerous(DangerousPattern::ScriptTag)]);
    let result = validate_contract_yaml("type: a\nlink: JavaScript:void", at(0));
    assert_eq!(result.errors, vec![ContractError::Dangerous(DangerousPattern::JavascriptUrl)]);
    let result = validate_contract_yaml("type: a\ncode: EVAL(x)", at(0));
    assert_eq!(result.errors, vec![ContractError::Dangerous(DangerousPattern::EvalCall)]);
    let result = validate_contract_yaml("type: a\ncode: Function(x)", at(0));
    assert_eq!(result.errors, vec![ContractError::Dangerous(DangerousPattern::FunctionCall)]);
}

#[test]
fn errors_are_reported_in_a_fixed_order() {
    let mut text = String::from("amount: 1 function( eval( javascript: <script ");
    while text.len() <= 10000 {
        text.push(' ');
    }
    let result = validate_contract_yaml(&text, at(0));
    assert_eq!(
        result.errors,
        vec![
            ContractError::MissingType,
            ContractError::MissingCurrency,
            ContractError::TooLong,
            ContractError::Dangerous(DangerousPattern::ScriptTag),
            ContractError::Dangerous(DangerousPattern::JavascriptUrl),
            ContractError::Dangerous(DangerousPattern::EvalCall),
            ContractError::Dangerous(DangerousPattern::FunctionCall),
        ]
    );
}

#[test]
fn a_dangerous_pattern_is_named_in_its_message() {
    assert_eq!(
        ContractError::Dangerous(DangerousPattern::ScriptTag).message(),
        "Padrão potencialmente perigoso detectado: <script"
    );
    assert_eq!(
        ContractError::Dangerous(DangerousPattern::JavascriptUrl).message(),
        "Padrão potencialmente perigoso detectado: javascript:"
    );
    assert_eq!(
        ContractError::Dangerous(DangerousPattern::EvalCall).message(),
        "Padrão potencialmente perigoso detectado: eval("
    );
    assert_eq!(
        ContractError::Dangerous(DangerousPattern::FunctionCall).message(),
        "Padrão potencialmente perigoso detectado: function("
    );
    assert_eq!(DangerousPattern::EvalCall.as_str(), "eval(");
    assert_eq!(Complexity::High.as_str(), "high");
    assert_eq!(ContractStatus::Accepted.as_str(), "ok");
    assert_eq!(ContractStatus::Rejected.as_str(), "error");
}

#[test]
fn an_accepted_contract_is_answered_with_its_details() {
    let outcome = SessionService::commit_contract(
        "type: note\namount: 5\ncurrency: USD",
        "c-4".to_string(),
        at(1_700_000_000),
        at(1_700_000_001),
    );
    assert_eq!(
        outcome.response.to_json(),
        "{\"estimated_execution\":\"2-3 business days\",\"message\":\"Contrato processado com sucesso\",\"span_id\":\"c-4\",\"status\":\"ok\",\"timestamp\":\"2023-11-14T22:13:20+00:00\",\"validation\":{\"content_length\":34,\"estimated_complexity\":\"low\",\"has_amount\":true,\"validation_timestamp\":\"2023-11-14T22:13:21+00:00\"}}"
    );
    match outcome.request {
        StoreRequest::SaveContract { record } => assert_eq!(
            record,
            "{\"contract_text\":\"type: note\\namount: 5\\ncurrency: USD\",\"id\":\"c-4\",\"processing_node\":\"wasm-simulator\",\"status\":\"ok\",\"timestamp\":\"2023-11-14T22:13:20+00:00\",\"type\":\"contract_commit\",\"validation_details\":{\"content_length\":34,\"estimated_complexity\":\"low\",\"has_amount\":true,\"validation_timestamp\":\"2023-11-14T22:13:21+00:00\"}}"
        ),
        other => panic!("unexpected request {:?}", other),
    }
}

#[test]
fn a_rejected_contract_is_answered_with_its_errors() {
    let outcome = SessionService::commit_contract(
        "type: note\namount: 5",
        "c-5".to_string(),
        at(1_700_000_000),
        at(1_700_000_001),
    );
    assert_eq!(
        outcome.response.to_json(),
        "{\"errors\":[\"Moeda não especificada para transação monetária\"],\"message\":\"Falha na validação do contrato\",\"span_id\":\"c-5\",\"status\":\"error\",\"timestamp\":\"2023-11-14T22:13:20+00:00\"}"
    );
    match outcome.request {
        StoreRequest::SaveContract { record } => assert_eq!(
            record,
            "{\"contract_text\":\"type: note\\namount: 5\",\"id\":\"c-5\",\"processing_node\":\"wasm-simulator\",\"status\":\"error\",\"timestamp\":\"2023-11-14T22:13:20+00:00\",\"type\":\"contract_commit\",\"validation_details\":{\"content_length\":20,\"estimated_complexity\":\"low\",\"has_amount\":true,\"validation_timestamp\":\"2023-11-14T22:13:21+00:00\"}}"
        ),
        other => panic!("unexpected request {:?}", other),
    }
}

#[test]
fn a_response_without_amount_has_no_amount_member() {
    let response = ContractResponse {
        status: ContractStatus::Accepted,
        span_id: "c-6".to_string(),
        timestamp: at(0),
        details: validate_contract_yaml("type: note", at(60)).details,
        errors: Vec::new(),
    };
    assert_eq!(
        response.to_json(),
        "{\"estimated_execution\":\"2-3 business days\",\"message\":\"Contrato processado com sucesso\",\"span_id\":\"c-6\",\"status\":\"ok\",\"timestamp\":\"1970-01-01T00:00:00+00:00\",\"validation\":{\"content_length\":10,\"estimated_complexity\":\"low\",\"validation_timestamp\":\"1970-01-01T00:01:00+00:00\"}}"
    );
}
