//! Spans: the typed, timestamped events that a session records.

use crate::clock::Timestamp;
use crate::contract::{details_doc, details_value, ContractStatus, ValidationDetails};
use crate::estimate::{dollars_text, write_dollars};
use crate::json::{
    array_value, json_text, new_object, null_value, number_value, object_value, parse_number,
    parsed_number, put, render, text_value, value_doc, value_docs, JsonDoc,
};
use vstd::prelude::*;
use vstd::string::*;

verus! {

/// Type tag of a span that records a generated reply.
pub const LLM_RESPONSE_KIND: &'static str = "llm_response";

/// Type tag of a span that records a committed contract.
pub const CONTRACT_COMMIT_KIND: &'static str = "contract_commit";

/// The model that every generated reply is attributed to.
pub const MODEL_TAG: &'static str = "flipapp-sim-v1";

/// The node that every contract commit is attributed to.
pub const PROCESSING_NODE_TAG: &'static str = "wasm-simulator";

/// What a span records, by its type.
#[derive(Debug)]
pub enum SpanBody {
    /// A reply generated for a prompt.
    LlmResponse {
        /// The session that the prompt was submitted to.
        session_id: String,
        prompt: String,
        /// The reply.
        content: String,
        /// Estimated cost, in hundred-thousandths of a US dollar.
        cost_units: u64,
        tokens_input: u32,
        tokens_output: u32,
        processing_time_ms: u32,
    },
    /// The audit record of a committed contract.
    ContractCommit { contract_text: String, status: ContractStatus, details: ValidationDetails },
}

/// One event. Once made, a span is never changed.
#[derive(Debug)]
pub struct Span {
    pub id: String,
    pub timestamp: Timestamp,
    pub body: SpanBody,
}

/// What a span body holds, as mathematical values.
pub enum SpanBodyView {
    LlmResponse {
        session_id: Seq<char>,
        prompt: Seq<char>,
        content: Seq<char>,
        cost_units: nat,
        tokens_input: nat,
        tokens_output: nat,
        processing_time_ms: nat,
    },
    ContractCommit { contract_text: Seq<char>, status: ContractStatus, details: ValidationDetails },
}

/// What a span holds, as mathematical values.
pub struct SpanView {
    pub id: Seq<char>,
    pub timestamp: Timestamp,
    pub body: SpanBodyView,
}

impl View for SpanBody {
    type V = SpanBodyView;

    open spec fn view(&self) -> SpanBodyView {
        match *self {
            SpanBody::LlmResponse {
                session_id,
                prompt,
                content,
                cost_units,
                tokens_input,
                tokens_output,
                processing_time_ms,
            } => SpanBodyView::LlmResponse {
                session_id: session_id@,
                prompt: prompt@,
                content: content@,
                cost_units: cost_units as nat,
                tokens_input: tokens_input as nat,
                tokens_output: tokens_output as nat,
                processing_time_ms: processing_time_ms as nat,
            },
            SpanBody::ContractCommit { contract_text, status, details } => {
                SpanBodyView::ContractCommit { contract_text: contract_text@, status, details }
            },
        }
    }
}

impl View for Span {
    type V = SpanView;

    open spec fn view(&self) -> SpanView {
        SpanView { id: self.id@, timestamp: self.timestamp, body: self.body@ }
    }
}

/// The views of a sequence of spans, in order.
pub open spec fn span_views(spans: Seq<Span>) -> Seq<SpanView> {
    Seq::new(spans.len(), |i: int| spans[i]@)
}

/// The JSON number of a cost in dollars: what serde_json reads from its
/// decimal text, and null should it read no number there.
pub open spec fn cost_doc(units: nat) -> JsonDoc {
    match parsed_number(dollars_text(units)) {
        Some(number) => number,
        None => JsonDoc::Null,
    }
}

impl SpanBodyView {
    /// The type tag of a span with this body.
    pub open spec fn kind(self) -> Seq<char> {
        match self {
            SpanBodyView::LlmResponse { .. } => LLM_RESPONSE_KIND@,
            SpanBodyView::ContractCommit { .. } => CONTRACT_COMMIT_KIND@,
        }
    }
}

impl SpanView {
    /// The type tag of the span.
    pub open spec fn kind(self) -> Seq<char> {
        self.body.kind()
    }

    /// The JSON document of the span.
    #[verifier::opaque]
    pub open spec fn doc(self) -> JsonDoc {
        let head = map![
            "id"@ => JsonDoc::Text(self.id),
            "timestamp"@ => JsonDoc::Text(self.timestamp.text()),
            "type"@ => JsonDoc::Text(self.kind()),
        ];
        JsonDoc::Object(
            match self.body {
                SpanBodyView::LlmResponse {
                    session_id,
                    prompt,
                    content,
                    cost_units,
                    tokens_input,
                    tokens_output,
                    processing_time_ms,
                } => head.insert("content"@, JsonDoc::Text(content)).insert(
                    "session_id"@,
                    JsonDoc::Text(session_id),
                ).insert("prompt"@, JsonDoc::Text(prompt)).insert(
                    "model"@,
                    JsonDoc::Text(MODEL_TAG@),
                ).insert("cost_usd"@, cost_doc(cost_units)).insert(
                    "tokens_input"@,
                    JsonDoc::Number(tokens_input as int),
                ).insert("tokens_output"@, JsonDoc::Number(tokens_output as int)).insert(
                    "processing_time_ms"@,
                    JsonDoc::Number(processing_time_ms as int),
                ),
                SpanBodyView::ContractCommit { contract_text, status, details } => head.insert(
                    "contract_text"@,
                    JsonDoc::Text(contract_text),
                ).insert("status"@, JsonDoc::Text(status.text())).insert(
                    "validation_details"@,
                    details_doc(details),
                ).insert("processing_node"@, JsonDoc::Text(PROCESSING_NODE_TAG@)),
            },
        )
    }
}

/// Builds the JSON number of a cost.
fn cost_value(units: u64) -> (value: serde_json::Value)
    ensures
        value_doc(value) == cost_doc(units as nat),
{
    let text = write_dollars(units);
    match parse_number(text.as_str()) {
        Some(number) => number,
        None => null_value(),
    }
}

impl Span {
    /// The type tag of the span.
    pub fn kind(&self) -> (tag: &'static str)
        ensures
            tag@ == self@.kind(),
    {
        match &self.body {
            SpanBody::LlmResponse { .. } => LLM_RESPONSE_KIND,
            SpanBody::ContractCommit { .. } => CONTRACT_COMMIT_KIND,
        }
    }

    /// Builds the JSON value of the span.
    pub(crate) fn to_value(&self) -> (value: serde_json::Value)
        ensures
            value_doc(value) == self@.doc(),
    {
        reveal(SpanView::doc);
        let mut members = new_object();
        put(&mut members, "id", text_value(self.id.as_str()));
        let stamp = self.timestamp.to_rfc3339();
        put(&mut members, "timestamp", text_value(stamp.as_str()));
        put(&mut members, "type", text_value(self.kind()));
        match &self.body {
            SpanBody::LlmResponse {
                session_id,
                prompt,
                content,
                cost_units,
                tokens_input,
                tokens_output,
                processing_time_ms,
            } => {
                put(&mut members, "content", text_value(content.as_str()));
                put(&mut members, "session_id", text_value(session_id.as_str()));
                put(&mut members, "prompt", text_value(prompt.as_str()));
                put(&mut members, "model", text_value(MODEL_TAG));
                put(&mut members, "cost_usd", cost_value(*cost_units));
                put(&mut members, "tokens_input", number_value(*tokens_input as u64));
                put(&mut members, "tokens_output", number_value(*tokens_output as u64));
                put(&mut members, "processing_time_ms", number_value(*processing_time_ms as u64));
            },
            SpanBody::ContractCommit { contract_text, status, details } => {
                put(&mut members, "contract_text", text_value(contract_text.as_str()));
                put(&mut members, "status", text_value(status.as_str()));
                put(&mut members, "validation_details", details_value(details));
                put(&mut members, "processing_node", text_value(PROCESSING_NODE_TAG));
            },
        }
        object_value(members)
    }

    /// Writes the span as JSON text.
    pub fn to_json(&self) -> (text: String)
        ensures
            text@ == json_text(self@.doc()),
    {
        let value = self.to_value();
        render(&value)
    }
}

/// The JSON document of a sequence of spans: the array of their documents,
/// in order.
pub open spec fn spans_doc(spans: Seq<SpanView>) -> JsonDoc {
    JsonDoc::Array(Seq::new(spans.len(), |i: int| spans[i].doc()))
}

/// Writes a sequence of spans as the JSON text of an array.
pub fn spans_to_json(spans: &Vec<Span>) -> (text: String)
    ensures
        text@ == json_text(spans_doc(span_views(spans@))),
{
    let mut items: Vec<serde_json::Value> = Vec::new();
    let mut i: usize = 0;
    while i < spans.len()
        invariant
            i <= spans.len(),
            items@.len() == i,
            forall|k: int| 0 <= k < i ==> value_doc(#[trigger] items@[k]) == spans@[k]@.doc(),
        decreases spans.len() - i,
    {
        items.push(spans[i].to_value());
        i += 1;
    }
    proof {
        let views = span_views(spans@);
        assert(value_docs(items@) =~= Seq::new(views.len(), |k: int| views[k].doc()));
    }
    let value = array_value(items);
    render(&value)
}

} // verus!
