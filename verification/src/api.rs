//! The operations as the embedding page calls them: identifiers and
//! instants are drawn here, and structured answers are written as JSON
//! text. Calls to the durable store are left to the caller, who gets the
//! request to make and, for a read, hands in the reply.

use crate::clock::Timestamp;
use crate::contract::{contract_details, contract_errors, response_doc, ContractStatus};
use crate::generate::reply_text;
use crate::ident::fresh_identifier;
use crate::json::{json_text, new_object, object_value, put, render, text_value, JsonDoc};
use crate::registry::{after_remove, holds, lookup, SessionView};
use crate::service::{
    after_prompt, audit_span, health_doc, prompt_span, read_result, summary_doc, HealthReport,
    PromptOutcome, ServiceError, SessionService, SessionStart, VERSION,
};
use crate::stats::stats_doc;
use crate::store::{StoreReply, StoreRequest, StoreRequestView};
use vstd::prelude::*;
use vstd::string::*;

verus! {

/// What is reported of a session that is not live in memory.
pub const SESSION_NOT_FOUND: &'static str = "Sessão não encontrada";

/// The answer to a committed contract, as text.
#[derive(Debug)]
pub struct CommitReply {
    /// The response, as JSON text.
    pub response: String,
    /// The write that persists the audit span of the commit.
    pub request: StoreRequest,
}

/// A session was started at the instant `now`: it is new among the live
/// sessions, it stands last among them, and the write of its summary is
/// named.
pub open spec fn session_started(
    before: Seq<SessionView>,
    after: Seq<SessionView>,
    start: SessionStart,
    now: Timestamp,
) -> bool {
    &&& !holds(before, start.session_id@)
    &&& after == before.push(SessionView::fresh(start.session_id@, now))
    &&& start.request@ == (StoreRequestView::SaveSession {
        summary: json_text(summary_doc(start.session_id@, now)),
    })
}

/// A prompt was answered at the instant `now` with a span under the
/// identifier `span_id`.
pub open spec fn prompt_answered(
    before: Seq<SessionView>,
    after: Seq<SessionView>,
    outcome: PromptOutcome,
    session_id: Seq<char>,
    prompt: Seq<char>,
    span_id: Seq<char>,
    now: Timestamp,
) -> bool {
    &&& after == after_prompt(before, session_id, prompt, span_id, now)
    &&& outcome.response@ == reply_text(prompt, now)
    &&& outcome.appended == holds(before, session_id)
    &&& outcome.request@ == (StoreRequestView::AddSpan {
        span: json_text(prompt_span(span_id, now, session_id, prompt).doc()),
    })
}

/// A contract document was committed under the identifier `span_id`,
/// received at one instant and validated at another.
pub open spec fn contract_committed(
    reply: CommitReply,
    document: Seq<char>,
    span_id: Seq<char>,
    received_at: Timestamp,
    validated_at: Timestamp,
) -> bool {
    &&& reply.response@ == json_text(
        response_doc(
            ContractStatus::of(contract_errors(document)),
            span_id,
            received_at,
            contract_details(document, validated_at),
            contract_errors(document),
        ),
    )
    &&& reply.request@ == (StoreRequestView::SaveContract {
        record: json_text(audit_span(span_id, document, received_at, validated_at).doc()),
    })
}

/// The JSON document that reports a session that is not live in memory.
pub open spec fn not_found_doc() -> JsonDoc {
    JsonDoc::Object(map!["error"@ => JsonDoc::Text(SESSION_NOT_FOUND@)])
}

/// The JSON text of the statistics of a session, or of the report that it
/// is not live in memory.
pub open spec fn stats_text(sessions: Seq<SessionView>, session_id: Seq<char>) -> Seq<char> {
    match lookup(sessions, session_id) {
        Some(session) => json_text(stats_doc(session)),
        None => json_text(not_found_doc()),
    }
}

/// The JSON text of the health of a service with `count` live sessions at
/// the instant `now`.
pub open spec fn health_text(count: nat, now: Timestamp) -> Seq<char> {
    json_text(health_doc(HealthReport { timestamp: now, memory_sessions: count as usize }))
}

/// Starts a session under a new identifier at the current instant. The
/// identifier is drawn at random: should it be that of a live session,
/// nothing changes and the error says so. That is the only way to fail, so
/// a service without live sessions always starts one.
pub fn wasm_init_session(service: &mut SessionService) -> (started: Result<
    SessionStart,
    ServiceError,
>)
    requires
        old(service).wf(),
    ensures
        final(service).wf(),
        match started {
            Ok(start) => exists|now: Timestamp| #[trigger]
                session_started(old(service)@, final(service)@, start, now),
            Err(error) => {
                &&& final(service)@ == old(service)@
                &&& error == ServiceError::IdentifierTaken
                &&& exists|drawn: Seq<char>| holds(old(service)@, drawn)
            },
        },
        old(service)@.len() == 0 ==> started is Ok,
{
    let id = fresh_identifier();
    let now = Timestamp::now();
    let ghost drawn = id@;
    let started = service.start_session(id, now);
    proof {
        if started is Ok {
            assert(session_started(old(service)@, final(service)@, started->Ok_0, now));
        } else {
            assert(holds(old(service)@, drawn));
        }
    }
    started
}

/// Reads the spans of a session, given how the read from the durable
/// store ended: its payload where it can be used, else what the registry
/// holds.
pub fn wasm_get_spans(service: &SessionService, session_id: &str, reply: &StoreReply) -> (text:
    String)
    requires
        service.wf(),
    ensures
        text@ == read_result(service@, session_id@, reply@),
{
    service.read_spans(session_id, reply)
}

/// Answers a prompt at the current instant, under a new span identifier.
pub fn wasm_process_prompt(service: &mut SessionService, session_id: &str, prompt: &str) -> (outcome:
    PromptOutcome)
    requires
        old(service).wf(),
    ensures
        final(service).wf(),
        exists|span_id: Seq<char>, now: Timestamp| #[trigger]
            prompt_answered(
                old(service)@,
                final(service)@,
                outcome,
                session_id@,
                prompt@,
                span_id,
                now,
            ),
{
    let span_id = fresh_identifier();
    let now = Timestamp::now();
    let ghost id_text = span_id@;
    let outcome = service.submit_prompt(session_id, prompt, span_id, now);
    proof {
        assert(prompt_answered(
            old(service)@,
            final(service)@,
            outcome,
            session_id@,
            prompt@,
            id_text,
            now,
        ));
    }
    outcome
}

/// Commits a contract document at the current instant, under a new span
/// identifier, and writes the response as JSON text.
pub fn wasm_commit_contract(contract_yaml: &str) -> (reply: CommitReply)
    ensures
        exists|span_id: Seq<char>, received_at: Timestamp, validated_at: Timestamp| #[trigger]
            contract_committed(reply, contract_yaml@, span_id, received_at, validated_at),
{
    let span_id = fresh_identifier();
    let received_at = Timestamp::now();
    let validated_at = Timestamp::now();
    let ghost id_text = span_id@;
    let outcome = SessionService::commit_contract(contract_yaml, span_id, received_at, validated_at);
    let reply = CommitReply { response: outcome.response.to_json(), request: outcome.request };
    proof {
        assert(contract_committed(reply, contract_yaml@, id_text, received_at, validated_at));
    }
    reply
}

/// Removes a session and its spans from memory. The result says whether
/// the session was live.
pub fn wasm_clear_session(service: &mut SessionService, session_id: &str) -> (existed: bool)
    requires
        old(service).wf(),
    ensures
        final(service).wf(),
        existed == holds(old(service)@, session_id@),
        final(service)@ == after_remove(old(service)@, session_id@),
        !holds(final(service)@, session_id@),
{
    service.clear_session(session_id)
}

/// Writes the statistics of a session as JSON text, or the report that it
/// is not live in memory.
pub fn wasm_get_session_stats(service: &SessionService, session_id: &str) -> (text: String)
    requires
        service.wf(),
    ensures
        text@ == stats_text(service@, session_id@),
{
    match service.session_stats(session_id) {
        Some(stats) => {
            proof {
                stats.lemma_doc(lookup(service@, session_id@)->0);
            }
            stats.to_json()
        },
        None => {
            let mut members = new_object();
            put(&mut members, "error", text_value(SESSION_NOT_FOUND));
            let value = object_value(members);
            render(&value)
        },
    }
}

/// The version tag.
pub fn wasm_get_version() -> (tag: String)
    ensures
        tag@ == VERSION@,
{
    SessionService::version()
}

/// Writes the health of the service at the current instant as JSON text.
pub fn wasm_health_check(service: &SessionService) -> (text: String)
    ensures
        exists|now: Timestamp| text@ == #[trigger] health_text(service@.len(), now),
{
    let now = Timestamp::now();
    let report = service.health(now);
    let text = report.to_json();
    proof {
        assert(text@ == health_text(service@.len(), now));
    }
    text
}

} // verus!
