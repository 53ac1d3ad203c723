//! The session service: every operation updates the registry in memory
//! first and then names the write that the durable store should make. How
//! that write ends changes nothing here. A read prefers what the durable
//! store replied and falls back on the registry.

use crate::clock::Timestamp;
use crate::contract::{
    contract_details, contract_errors, validate_contract_yaml, ContractResponse, ContractStatus,
};
use crate::estimate::{
    calculate_cost, cost_estimate, estimate_tokens, processing_time_estimate,
    simulate_processing_time, token_estimate,
};
use crate::generate::{generate_llm_response, reply_text};
use crate::json::{
    json_text, new_object, number_value, object_value, put, render, text_value, JsonDoc,
};
use crate::registry::{
    after_append, after_create, after_remove, after_touch, holds, lemma_after_touch, lookup,
    well_formed, Registry, SessionView,
};
use crate::span::{spans_doc, spans_to_json, Span, SpanBody, SpanBodyView, SpanView};
use crate::stats::SessionStats;
use crate::store::{StoreReply, StoreReplyView, StoreRequest, StoreRequestView};
use crate::text::byte_len;
use vstd::prelude::*;
use vstd::string::*;

verus! {

/// The version tag that every build reports.
pub const VERSION: &'static str = "1.0.0-production";

/// The status that a health report carries.
pub const HEALTHY: &'static str = "healthy";

/// Why a session could not be started.
#[derive(Clone, Copy, Debug, PartialEq, Eq, Structural)]
pub enum ServiceError {
    /// A live session has the identifier already.
    IdentifierTaken,
}

/// A started session.
#[derive(Debug)]
pub struct SessionStart {
    pub session_id: String,
    /// The write that persists the summary of the session.
    pub request: StoreRequest,
}

/// The answer to a prompt.
#[derive(Debug)]
pub struct PromptOutcome {
    /// The generated reply.
    pub response: String,
    /// Whether the span of the reply was appended to a live session.
    pub appended: bool,
    /// The write that persists the span, appended or not.
    pub request: StoreRequest,
}

/// The answer to a committed contract.
#[derive(Debug)]
pub struct CommitOutcome {
    pub response: ContractResponse,
    /// The write that persists the audit span of the commit.
    pub request: StoreRequest,
}

/// The state of the service at one instant.
#[derive(Clone, Copy, Debug)]
pub struct HealthReport {
    pub timestamp: Timestamp,
    /// How many sessions are live in memory.
    pub memory_sessions: usize,
}

/// The JSON document of the summary of a session that was just created.
pub open spec fn summary_doc(id: Seq<char>, now: Timestamp) -> JsonDoc {
    JsonDoc::Object(
        map![
            "id"@ => JsonDoc::Text(id),
            "created_at"@ => JsonDoc::Text(now.text()),
            "last_activity"@ => JsonDoc::Text(now.text()),
            "spans_count"@ => JsonDoc::Number(0),
        ],
    )
}

/// The span that records the reply to a prompt.
pub open spec fn prompt_span(
    span_id: Seq<char>,
    now: Timestamp,
    session_id: Seq<char>,
    prompt: Seq<char>,
) -> SpanView {
    let content = reply_text(prompt, now);
    let tokens_input = token_estimate(byte_len(prompt));
    let tokens_output = token_estimate(byte_len(content));
    SpanView {
        id: span_id,
        timestamp: now,
        body: SpanBodyView::LlmResponse {
            session_id,
            prompt,
            content,
            cost_units: cost_estimate(tokens_input, tokens_output),
            tokens_input,
            tokens_output,
            processing_time_ms: processing_time_estimate(byte_len(prompt)),
        },
    }
}

/// The audit span of a committed contract.
pub open spec fn audit_span(
    span_id: Seq<char>,
    document: Seq<char>,
    received_at: Timestamp,
    validated_at: Timestamp,
) -> SpanView {
    SpanView {
        id: span_id,
        timestamp: received_at,
        body: SpanBodyView::ContractCommit {
            contract_text: document,
            status: ContractStatus::of(contract_errors(document)),
            details: contract_details(document, validated_at),
        },
    }
}

/// The sessions after a prompt was submitted to one of them: activity is
/// recorded on it, then the span of the reply is appended to it.
pub open spec fn after_prompt(
    sessions: Seq<SessionView>,
    session_id: Seq<char>,
    prompt: Seq<char>,
    span_id: Seq<char>,
    now: Timestamp,
) -> Seq<SessionView> {
    after_append(
        after_touch(sessions, session_id, now),
        session_id,
        prompt_span(span_id, now, session_id, prompt),
    )
}

/// What a read of the spans of a session returns: the payload of the
/// durable store where it can be used, as it is; else the spans that the
/// registry holds for the session, written as JSON; else, where the
/// registry has no such session, the JSON text of no spans.
pub open spec fn read_result(
    sessions: Seq<SessionView>,
    session_id: Seq<char>,
    reply: StoreReplyView,
) -> Seq<char> {
    match reply.usable() {
        Some(payload) => payload,
        None => match lookup(sessions, session_id) {
            Some(session) => json_text(spans_doc(session.spans)),
            None => json_text(spans_doc(Seq::empty())),
        },
    }
}

/// The JSON document of a health report.
pub open spec fn health_doc(report: HealthReport) -> JsonDoc {
    JsonDoc::Object(
        map![
            "status"@ => JsonDoc::Text(HEALTHY@),
            "timestamp"@ => JsonDoc::Text(report.timestamp.text()),
            "memory_sessions"@ => JsonDoc::Number(report.memory_sessions as int),
            "version"@ => JsonDoc::Text(VERSION@),
        ],
    )
}

impl HealthReport {
    /// Writes the report as JSON text.
    pub fn to_json(&self) -> (text: String)
        ensures
            text@ == json_text(health_doc(*self)),
    {
        let mut members = new_object();
        put(&mut members, "status", text_value(HEALTHY));
        let stamp = self.timestamp.to_rfc3339();
        put(&mut members, "timestamp", text_value(stamp.as_str()));
        put(&mut members, "memory_sessions", number_value(self.memory_sessions as u64));
        put(&mut members, "version", text_value(VERSION));
        let value = object_value(members);
        render(&value)
    }
}

/// Writes the summary of a session that was just created as JSON text.
fn summary_json(id: &str, now: Timestamp) -> (text: String)
    ensures
        text@ == json_text(summary_doc(id@, now)),
{
    let mut members = new_object();
    put(&mut members, "id", text_value(id));
    let stamp = now.to_rfc3339();
    put(&mut members, "created_at", text_value(stamp.as_str()));
    put(&mut members, "last_activity", text_value(stamp.as_str()));
    put(&mut members, "spans_count", number_value(0));
    let value = object_value(members);
    render(&value)
}

/// Generates the reply to a prompt and makes the span that records it.
fn reply_span(session_id: &str, prompt: &str, span_id: String, now: Timestamp) -> (made: (
    Span,
    String,
))
    ensures
        made.0@ == prompt_span(span_id@, now, session_id@, prompt@),
        made.1@ == reply_text(prompt@, now),
{
    let content = generate_llm_response(prompt, &now);
    let response = content.clone();
    let tokens_input = estimate_tokens(prompt);
    let tokens_output = estimate_tokens(content.as_str());
    let cost_units = calculate_cost(prompt, content.as_str());
    let processing_time_ms = simulate_processing_time(prompt);
    let span = Span {
        id: span_id,
        timestamp: now,
        body: SpanBody::LlmResponse {
            session_id: session_id.to_owned(),
            prompt: prompt.to_owned(),
            content,
            cost_units,
            tokens_input,
            tokens_output,
            processing_time_ms,
        },
    };
    (span, response)
}

/// The service that owns the registry of live sessions.
pub struct SessionService {
    registry: Registry,
}

impl View for SessionService {
    type V = Seq<SessionView>;

    closed spec fn view(&self) -> Seq<SessionView> {
        self.registry@
    }
}

impl SessionService {
    /// What holds of every service: its registry is well formed.
    pub open spec fn wf(&self) -> bool {
        well_formed(self@)
    }

    /// A service without sessions.
    pub fn new() -> (service: SessionService)
        ensures
            service.wf(),
            service@ == Seq::<SessionView>::empty(),
    {
        SessionService { registry: Registry::new() }
    }

    /// The version tag.
    pub fn version() -> (tag: String)
        ensures
            tag@ == VERSION@,
    {
        VERSION.to_owned()
    }

    /// Starts a session under the identifier `id` at the instant `now`, and
    /// names the write that persists its summary. Where a live session has
    /// the identifier already, nothing changes and the error says so.
    pub fn start_session(&mut self, id: String, now: Timestamp) -> (started: Result<
        SessionStart,
        ServiceError,
    >)
        requires
            old(self).wf(),
        ensures
            final(self).wf(),
            final(self)@ == after_create(old(self)@, id@, now),
            match started {
                Ok(start) => {
                    &&& !holds(old(self)@, id@)
                    &&& start.session_id@ == id@
                    &&& start.request@ == (StoreRequestView::SaveSession {
                        summary: json_text(summary_doc(id@, now)),
                    })
                },
                Err(error) => holds(old(self)@, id@) && error == ServiceError::IdentifierTaken,
            },
    {
        let session_id = id.clone();
        if !self.registry.create(id, now) {
            return Err(ServiceError::IdentifierTaken);
        }
        let summary = summary_json(session_id.as_str(), now);
        Ok(SessionStart { session_id, request: StoreRequest::SaveSession { summary } })
    }

    /// Reads the spans of a session, given how the read from the durable
    /// store ended.
    pub fn read_spans(&self, session_id: &str, reply: &StoreReply) -> (text: String)
        requires
            self.wf(),
        ensures
            text@ == read_result(self@, session_id@, reply@),
    {
        match reply.usable() {
            Some(payload) => payload.clone(),
            None => match self.registry.get(session_id) {
                Some(session) => spans_to_json(session.spans()),
                None => {
                    let none: Vec<Span> = Vec::new();
                    proof {
                        assert(crate::span::span_views(none@) =~= Seq::empty());
                    }
                    spans_to_json(&none)
                },
            },
        }
    }

    /// Answers a prompt at the instant `now`. Activity is recorded on the
    /// session, the reply is generated, and its span, under the identifier
    /// `span_id`, is appended to the session. Where no such session is
    /// live the registry stays as it is; the reply is returned and the
    /// write of the span is named all the same.
    pub fn submit_prompt(
        &mut self,
        session_id: &str,
        prompt: &str,
        span_id: String,
        now: Timestamp,
    ) -> (outcome: PromptOutcome)
        requires
            old(self).wf(),
        ensures
            final(self).wf(),
            final(self)@ == after_prompt(old(self)@, session_id@, prompt@, span_id@, now),
            outcome.response@ == reply_text(prompt@, now),
            outcome.appended == holds(old(self)@, session_id@),
            outcome.request@ == (StoreRequestView::AddSpan {
                span: json_text(prompt_span(span_id@, now, session_id@, prompt@).doc()),
            }),
    {
        self.registry.touch(session_id, now);
        assert(self.registry.wf() && holds(self@, session_id@) == holds(old(self)@, session_id@))
            by {
            lemma_after_touch(old(self)@, session_id@, now);
        }
        let (span, response) = reply_span(session_id, prompt, span_id, now);
        let text = span.to_json();
        let appended = self.registry.append(session_id, span);
        PromptOutcome { response, appended, request: StoreRequest::AddSpan { span: text } }
    }

    /// Commits a contract document: validates it at the instant
    /// `validated_at`, answers with the verdict, and names the write that
    /// persists the audit span, which carries the identifier `span_id` and
    /// the instant `received_at`. The registry has no part in it.
    pub fn commit_contract(
        document: &str,
        span_id: String,
        received_at: Timestamp,
        validated_at: Timestamp,
    ) -> (outcome: CommitOutcome)
        ensures
            outcome.response.status == ContractStatus::of(contract_errors(document@)),
            outcome.response.span_id@ == span_id@,
            outcome.response.timestamp == received_at,
            outcome.response.details == contract_details(document@, validated_at),
            outcome.response.errors@ == contract_errors(document@),
            outcome.request@ == (StoreRequestView::SaveContract {
                record: json_text(audit_span(span_id@, document@, received_at, validated_at).doc()),
            }),
    {
        let verdict = validate_contract_yaml(document, validated_at);
        let status = if verdict.is_valid {
            ContractStatus::Accepted
        } else {
            ContractStatus::Rejected
        };
        let audit = Span {
            id: span_id.clone(),
            timestamp: received_at,
            body: SpanBody::ContractCommit {
                contract_text: document.to_owned(),
                status,
                details: verdict.details,
            },
        };
        let record = audit.to_json();
        let response = ContractResponse {
            status,
            span_id,
            timestamp: received_at,
            details: verdict.details,
            errors: verdict.errors,
        };
        CommitOutcome { response, request: StoreRequest::SaveContract { record } }
    }

    /// Removes a session and its spans from memory; the durable store is
    /// not touched. The result says whether the session was live.
    pub fn clear_session(&mut self, session_id: &str) -> (existed: bool)
        requires
            old(self).wf(),
        ensures
            final(self).wf(),
            existed == holds(old(self)@, session_id@),
            final(self)@ == after_remove(old(self)@, session_id@),
            !holds(final(self)@, session_id@),
    {
        self.registry.remove(session_id)
    }

    /// The statistics of a session, if it is live in memory.
    pub fn session_stats(&self, session_id: &str) -> (stats: Option<SessionStats>)
        requires
            self.wf(),
        ensures
            match stats {
                Some(s) => lookup(self@, session_id@) is Some && s.describes(
                    lookup(self@, session_id@)->0,
                ),
                None => lookup(self@, session_id@) is None,
            },
    {
        self.registry.stats(session_id)
    }

    /// The state of the service at the instant `now`.
    pub fn health(&self, now: Timestamp) -> (report: HealthReport)
        ensures
            report.timestamp == now,
            report.memory_sessions == self@.len(),
    {
        HealthReport { timestamp: now, memory_sessions: self.registry.count() }
    }
}

} // verus!
