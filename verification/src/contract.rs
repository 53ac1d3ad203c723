//! Validation of contract documents and the response that reports it.

use crate::clock::Timestamp;
use crate::json::{
    array_value, bool_value, json_text, new_object, number_value, object_value, put, render,
    text_value, value_doc, value_docs, JsonDoc,
};
use crate::text::{blank, byte_len, contains, contains_text, is_blank, lowercased, to_lowercase};
use vstd::prelude::*;
use vstd::string::*;

verus! {

/// A document longer than this many bytes is refused.
pub const MAX_CONTRACT_BYTES: usize = 10000;

/// A document longer than this many bytes counts as complex.
pub const COMPLEX_CONTRACT_BYTES: usize = 500;

pub const ACCEPTED_MESSAGE: &'static str = "Contrato processado com sucesso";

pub const REJECTED_MESSAGE: &'static str = "Falha na validação do contrato";

pub const EXECUTION_NOTE: &'static str = "2-3 business days";

pub const DANGER_MESSAGE_HEAD: &'static str = "Padrão potencialmente perigoso detectado: ";

/// A piece of text that a contract document must not hold, in any case of
/// its letters.
#[derive(Clone, Copy, Debug, PartialEq, Eq, Structural)]
pub enum DangerousPattern {
    ScriptTag,
    JavascriptUrl,
    EvalCall,
    FunctionCall,
}

impl DangerousPattern {
    /// The text that is looked for, in lowercase.
    pub open spec fn text(self) -> Seq<char> {
        match self {
            DangerousPattern::ScriptTag => "<script"@,
            DangerousPattern::JavascriptUrl => "javascript:"@,
            DangerousPattern::EvalCall => "eval("@,
            DangerousPattern::FunctionCall => "function("@,
        }
    }

    /// The text that is looked for, in lowercase.
    pub fn as_str(&self) -> (text: &'static str)
        ensures
            text@ == self.text(),
    {
        match self {
            DangerousPattern::ScriptTag => "<script",
            DangerousPattern::JavascriptUrl => "javascript:",
            DangerousPattern::EvalCall => "eval(",
            DangerousPattern::FunctionCall => "function(",
        }
    }
}

/// What is wrong with a contract document.
#[derive(Clone, Copy, Debug, PartialEq, Eq, Structural)]
pub enum ContractError {
    /// Nothing but whitespace stands in the document.
    Empty,
    /// No `type:` key.
    MissingType,
    /// An `amount:` key without a `currency:` key.
    MissingCurrency,
    /// More than 10000 bytes.
    TooLong,
    /// The lowercase form of the document holds this pattern.
    Dangerous(DangerousPattern),
}

impl ContractError {
    /// The message that reports the error.
    pub open spec fn message_text(self) -> Seq<char> {
        match self {
            ContractError::Empty => "Contrato vazio"@,
            ContractError::MissingType => "Tipo de contrato não especificado"@,
            ContractError::MissingCurrency => "Moeda não especificada para transação monetária"@,
            ContractError::TooLong => "Contrato muito longo"@,
            ContractError::Dangerous(pattern) => DANGER_MESSAGE_HEAD@ + pattern.text(),
        }
    }

    /// The message that reports the error.
    pub fn message(&self) -> (text: String)
        ensures
            text@ == self.message_text(),
    {
        match self {
            ContractError::Empty => "Contrato vazio".to_owned(),
            ContractError::MissingType => "Tipo de contrato não especificado".to_owned(),
            ContractError::MissingCurrency => "Moeda não especificada para transação monetária".to_owned(),
            ContractError::TooLong => "Contrato muito longo".to_owned(),
            ContractError::Dangerous(pattern) => {
                let mut text = DANGER_MESSAGE_HEAD.to_owned();
                text.append(pattern.as_str());
                text
            },
        }
    }
}

/// How much there is to a document.
#[derive(Clone, Copy, Debug, PartialEq, Eq, Structural)]
pub enum Complexity {
    Low,
    High,
}

impl Complexity {
    /// The word that names the level.
    pub open spec fn text(self) -> Seq<char> {
        match self {
            Complexity::Low => "low"@,
            Complexity::High => "high"@,
        }
    }

    /// The word that names the level.
    pub fn as_str(&self) -> (text: &'static str)
        ensures
            text@ == self.text(),
    {
        match self {
            Complexity::Low => "low",
            Complexity::High => "high",
        }
    }
}

/// What validation found out about a document, whether it passed or not.
#[derive(Clone, Copy, Debug)]
pub struct ValidationDetails {
    /// The document has an `amount:` key.
    pub has_amount: bool,
    /// When the document was validated.
    pub validated_at: Timestamp,
    /// Length of the document in bytes.
    pub content_length: usize,
    pub complexity: Complexity,
}

/// The verdict on a contract document.
#[derive(Debug)]
pub struct ValidationResult {
    pub is_valid: bool,
    pub details: ValidationDetails,
    pub errors: Vec<ContractError>,
}

/// The error, if the condition holds, as a list of one or none.
pub open spec fn error_when(condition: bool, error: ContractError) -> Seq<ContractError> {
    if condition {
        seq![error]
    } else {
        Seq::empty()
    }
}

/// The document has an `amount:` key.
pub open spec fn names_amount(text: Seq<char>) -> bool {
    contains_text(text, "amount:"@)
}

/// The lowercase form of the document holds the pattern.
pub open spec fn holds_pattern(text: Seq<char>, pattern: DangerousPattern) -> bool {
    contains_text(lowercased(text), pattern.text())
}

/// The errors of a document, in the order in which they are reported.
pub open spec fn contract_errors(text: Seq<char>) -> Seq<ContractError> {
    error_when(is_blank(text), ContractError::Empty) + error_when(
        !contains_text(text, "type:"@),
        ContractError::MissingType,
    ) + error_when(
        names_amount(text) && !contains_text(text, "currency:"@),
        ContractError::MissingCurrency,
    ) + error_when(byte_len(text) > 10000, ContractError::TooLong) + error_when(
        holds_pattern(text, DangerousPattern::ScriptTag),
        ContractError::Dangerous(DangerousPattern::ScriptTag),
    ) + error_when(
        holds_pattern(text, DangerousPattern::JavascriptUrl),
        ContractError::Dangerous(DangerousPattern::JavascriptUrl),
    ) + error_when(
        holds_pattern(text, DangerousPattern::EvalCall),
        ContractError::Dangerous(DangerousPattern::EvalCall),
    ) + error_when(
        holds_pattern(text, DangerousPattern::FunctionCall),
        ContractError::Dangerous(DangerousPattern::FunctionCall),
    )
}

/// What validation at the instant `now` finds out about a document.
pub open spec fn contract_details(text: Seq<char>, now: Timestamp) -> ValidationDetails {
    ValidationDetails {
        has_amount: names_amount(text),
        validated_at: now,
        content_length: byte_len(text) as usize,
        complexity: if byte_len(text) > 500 {
            Complexity::High
        } else {
            Complexity::Low
        },
    }
}

/// Adds `error` to `errors` if the condition holds.
fn note_error(errors: &mut Vec<ContractError>, condition: bool, error: ContractError)
    ensures
        final(errors)@ == old(errors)@ + error_when(condition, error),
{
    if condition {
        errors.push(error);
    }
}

/// Validates a contract document. `now` is the instant of the validation,
/// which the details record.
pub fn validate_contract_yaml(yaml_content: &str, now: Timestamp) -> (result: ValidationResult)
    ensures
        result.errors@ == contract_errors(yaml_content@),
        result.is_valid == (contract_errors(yaml_content@).len() == 0),
        result.details == contract_details(yaml_content@, now),
{
    let mut errors: Vec<ContractError> = Vec::new();
    let empty = blank(yaml_content);
    note_error(&mut errors, empty, ContractError::Empty);
    let has_type = contains(yaml_content, "type:");
    note_error(&mut errors, !has_type, ContractError::MissingType);
    let has_amount = contains(yaml_content, "amount:");
    let has_currency = contains(yaml_content, "currency:");
    note_error(&mut errors, has_amount && !has_currency, ContractError::MissingCurrency);
    let length = yaml_content.as_bytes().len();
    note_error(&mut errors, length > MAX_CONTRACT_BYTES, ContractError::TooLong);
    let lower = to_lowercase(yaml_content);
    let script = contains(lower.as_str(), DangerousPattern::ScriptTag.as_str());
    note_error(&mut errors, script, ContractError::Dangerous(DangerousPattern::ScriptTag));
    let url = contains(lower.as_str(), DangerousPattern::JavascriptUrl.as_str());
    note_error(&mut errors, url, ContractError::Dangerous(DangerousPattern::JavascriptUrl));
    let eval = contains(lower.as_str(), DangerousPattern::EvalCall.as_str());
    note_error(&mut errors, eval, ContractError::Dangerous(DangerousPattern::EvalCall));
    let function = contains(lower.as_str(), DangerousPattern::FunctionCall.as_str());
    note_error(&mut errors, function, ContractError::Dangerous(DangerousPattern::FunctionCall));
    let complexity = if length > COMPLEX_CONTRACT_BYTES {
        Complexity::High
    } else {
        Complexity::Low
    };
    let details = ValidationDetails {
        has_amount,
        validated_at: now,
        content_length: length,
        complexity,
    };
    let is_valid = errors.len() == 0;
    ValidationResult { is_valid, details, errors }
}

/// The JSON document of validation details. The `has_amount` member is
/// there only when the document has an amount.
pub open spec fn details_doc(details: ValidationDetails) -> JsonDoc {
    let members = map![
        "validation_timestamp"@ => JsonDoc::Text(details.validated_at.text()),
        "content_length"@ => JsonDoc::Number(details.content_length as int),
        "estimated_complexity"@ => JsonDoc::Text(details.complexity.text()),
    ];
    JsonDoc::Object(
        if details.has_amount {
            members.insert("has_amount"@, JsonDoc::Bool(true))
        } else {
            members
        },
    )
}

/// The JSON document of a list of errors: the array of their messages.
pub open spec fn errors_doc(errors: Seq<ContractError>) -> JsonDoc {
    JsonDoc::Array(Seq::new(errors.len(), |i: int| JsonDoc::Text(errors[i].message_text())))
}

/// Builds the JSON value of validation details.
pub(crate) fn details_value(details: &ValidationDetails) -> (value: serde_json::Value)
    ensures
        value_doc(value) == details_doc(*details),
{
    let mut members = new_object();
    let stamp = details.validated_at.to_rfc3339();
    put(&mut members, "validation_timestamp", text_value(stamp.as_str()));
    put(&mut members, "content_length", number_value(details.content_length as u64));
    put(&mut members, "estimated_complexity", text_value(details.complexity.as_str()));
    if details.has_amount {
        put(&mut members, "has_amount", bool_value(true));
    }
    object_value(members)
}

/// Builds the JSON value of a list of errors.
pub(crate) fn errors_value(errors: &Vec<ContractError>) -> (value: serde_json::Value)
    ensures
        value_doc(value) == errors_doc(errors@),
{
    let mut items: Vec<serde_json::Value> = Vec::new();
    let mut i: usize = 0;
    while i < errors.len()
        invariant
            i <= errors.len(),
            items@.len() == i,
            forall|k: int|
                0 <= k < i ==> value_doc(#[trigger] items@[k]) == JsonDoc::Text(
                    errors@[k].message_text(),
                ),
        decreases errors.len() - i,
    {
        let message = errors[i].message();
        items.push(text_value(message.as_str()));
        i += 1;
    }
    proof {
        assert(value_docs(items@) =~= Seq::new(
            errors@.len(),
            |k: int| JsonDoc::Text(errors@[k].message_text()),
        ));
    }
    array_value(items)
}

/// Whether a contract was accepted.
#[derive(Clone, Copy, Debug, PartialEq, Eq, Structural)]
pub enum ContractStatus {
    Accepted,
    Rejected,
}

impl ContractStatus {
    /// The status of a document with these errors.
    pub open spec fn of(errors: Seq<ContractError>) -> ContractStatus {
        if errors.len() == 0 {
            ContractStatus::Accepted
        } else {
            ContractStatus::Rejected
        }
    }

    /// The word that a response carries: `ok` or `error`.
    pub open spec fn text(self) -> Seq<char> {
        match self {
            ContractStatus::Accepted => "ok"@,
            ContractStatus::Rejected => "error"@,
        }
    }

    /// The word that a response carries: `ok` or `error`.
    pub fn as_str(&self) -> (text: &'static str)
        ensures
            text@ == self.text(),
    {
        match self {
            ContractStatus::Accepted => "ok",
            ContractStatus::Rejected => "error",
        }
    }
}

/// The answer to a committed contract.
#[derive(Debug)]
pub struct ContractResponse {
    pub status: ContractStatus,
    /// Identifier of the audit span of the commit.
    pub span_id: String,
    /// When the commit was received.
    pub timestamp: Timestamp,
    /// What validation found out; reported when the contract was accepted.
    pub details: ValidationDetails,
    /// What was wrong; reported when the contract was rejected.
    pub errors: Vec<ContractError>,
}

/// The JSON document of a response. An accepted contract is answered with
/// its validation details and a note on when it will run, a rejected one
/// with its errors.
pub open spec fn response_doc(
    status: ContractStatus,
    span_id: Seq<char>,
    timestamp: Timestamp,
    details: ValidationDetails,
    errors: Seq<ContractError>,
) -> JsonDoc {
    let head = map![
        "status"@ => JsonDoc::Text(status.text()),
        "span_id"@ => JsonDoc::Text(span_id),
        "timestamp"@ => JsonDoc::Text(timestamp.text()),
    ];
    JsonDoc::Object(
        match status {
            ContractStatus::Accepted => head.insert(
                "message"@,
                JsonDoc::Text(ACCEPTED_MESSAGE@),
            ).insert("validation"@, details_doc(details)).insert(
                "estimated_execution"@,
                JsonDoc::Text(EXECUTION_NOTE@),
            ),
            ContractStatus::Rejected => head.insert(
                "message"@,
                JsonDoc::Text(REJECTED_MESSAGE@),
            ).insert("errors"@, errors_doc(errors)),
        },
    )
}

impl ContractResponse {
    /// The JSON document of the response.
    pub open spec fn doc(&self) -> JsonDoc {
        response_doc(self.status, self.span_id@, self.timestamp, self.details, self.errors@)
    }

    /// Writes the response as JSON text.
    pub fn to_json(&self) -> (text: String)
        ensures
            text@ == json_text(self.doc()),
    {
        let mut members = new_object();
        put(&mut members, "status", text_value(self.status.as_str()));
        put(&mut members, "span_id", text_value(self.span_id.as_str()));
        let stamp = self.timestamp.to_rfc3339();
        put(&mut members, "timestamp", text_value(stamp.as_str()));
        match self.status {
            ContractStatus::Accepted => {
                put(&mut members, "message", text_value(ACCEPTED_MESSAGE));
                put(&mut members, "validation", details_value(&self.details));
                put(&mut members, "estimated_execution", text_value(EXECUTION_NOTE));
            },
            ContractStatus::Rejected => {
                put(&mut members, "message", text_value(REJECTED_MESSAGE));
                put(&mut members, "errors", errors_value(&self.errors));
            },
        }
        let value = object_value(members);
        render(&value)
    }
}

} // verus!
