//! Laws of the registry and the service, stated over the models that the
//! contracts of the operations use.

use crate::clock::Timestamp;
use crate::contract::{
    contract_errors, error_when, holds_pattern, names_amount, ContractError, ContractStatus,
    DangerousPattern,
};
use crate::json::json_text;
use crate::registry::{
    after_append, after_create, after_remove, after_touch, holds, index_of,
    lemma_after_append, lemma_after_touch, lemma_index_of, lookup, well_formed, SessionView,
};
use crate::service::{after_prompt, prompt_span, read_result};
use crate::span::{spans_doc, SpanView};
use crate::store::StoreReplyView;
use crate::text::{
    byte_len, contains_text, is_blank, lemma_contains_beginning, lemma_substring_not_blank,
};
use vstd::prelude::*;

verus! {

/// One operation on the registry.
pub enum RegistryOp {
    Create { id: Seq<char>, now: Timestamp },
    Touch { id: Seq<char>, now: Timestamp },
    Append { id: Seq<char>, span: SpanView },
    Remove { id: Seq<char> },
}

impl RegistryOp {
    /// The sessions after the operation.
    pub open spec fn apply(self, sessions: Seq<SessionView>) -> Seq<SessionView> {
        match self {
            RegistryOp::Create { id, now } => after_create(sessions, id, now),
            RegistryOp::Touch { id, now } => after_touch(sessions, id, now),
            RegistryOp::Append { id, span } => after_append(sessions, id, span),
            RegistryOp::Remove { id } => after_remove(sessions, id),
        }
    }

    /// The operation creates a session: it is a creation under an
    /// identifier that no live session has.
    pub open spec fn creates(self, sessions: Seq<SessionView>) -> bool {
        self matches RegistryOp::Create { id, .. } && !holds(sessions, id)
    }

    /// The operation clears a session: it is a removal of a live session.
    pub open spec fn clears(self, sessions: Seq<SessionView>) -> bool {
        self matches RegistryOp::Remove { id } && holds(sessions, id)
    }
}

/// The sessions of a registry that started empty, after the operations
/// `ops` in order.
pub open spec fn run(ops: Seq<RegistryOp>) -> Seq<SessionView>
    decreases ops.len(),
{
    if ops.len() == 0 {
        Seq::empty()
    } else {
        ops.last().apply(run(ops.drop_last()))
    }
}

/// How many of the operations `ops` created a session.
pub open spec fn created(ops: Seq<RegistryOp>) -> nat
    decreases ops.len(),
{
    if ops.len() == 0 {
        0
    } else {
        created(ops.drop_last()) + if ops.last().creates(run(ops.drop_last())) {
            1nat
        } else {
            0nat
        }
    }
}

/// How many of the operations `ops` cleared a session.
pub open spec fn cleared(ops: Seq<RegistryOp>) -> nat
    decreases ops.len(),
{
    if ops.len() == 0 {
        0
    } else {
        cleared(ops.drop_last()) + if ops.last().clears(run(ops.drop_last())) {
            1nat
        } else {
            0nat
        }
    }
}

/// Removing a live session keeps the sessions well formed, takes exactly
/// that session away, and leaves every other session live.
pub proof fn lemma_after_remove(sessions: Seq<SessionView>, id: Seq<char>)
    requires
        well_formed(sessions),
    ensures
        well_formed(after_remove(sessions, id)),
        !holds(after_remove(sessions, id), id),
        lookup(after_remove(sessions, id), id) is None,
        holds(sessions, id) ==> after_remove(sessions, id).len() == sessions.len() - 1,
        !holds(sessions, id) ==> after_remove(sessions, id) == sessions,
        forall|other: Seq<char>|
            other != id ==> holds(after_remove(sessions, id), other) == holds(sessions, other),
{
    let after = after_remove(sessions, id);
    if holds(sessions, id) {
        let at = index_of(sessions, id)->0;
        assert(sessions[at].id == id);
        assert forall|i: int| 0 <= i < after.len() implies #[trigger] after[i].wf() && after[i].id
            != id by {
            if i < at {
                assert(sessions[i].wf());
                assert(sessions[i].id != sessions[at].id);
            } else {
                assert(sessions[i + 1].wf());
                assert(sessions[at].id != sessions[i + 1].id);
            }
        }
        assert forall|i: int, j: int| 0 <= i < j < after.len() implies #[trigger] after[i].id
            != #[trigger] after[j].id by {
            let a = if i < at {
                i
            } else {
                i + 1
            };
            let b = if j < at {
                j
            } else {
                j + 1
            };
            assert(sessions[a].id != sessions[b].id);
        }
        assert forall|other: Seq<char>| other != id implies holds(after, other) == holds(
            sessions,
            other,
        ) by {
            if holds(after, other) {
                let i = choose|i: int| 0 <= i < after.len() && #[trigger] after[i].id == other;
                let a = if i < at {
                    i
                } else {
                    i + 1
                };
                assert(sessions[a].id == other);
            }
            if holds(sessions, other) {
                let a = choose|a: int| 0 <= a < sessions.len() && #[trigger] sessions[a].id == other;
                let i = if a < at {
                    a
                } else {
                    a - 1
                };
                assert(after[i].id == other);
            }
        }
    }
}

/// Creating a session keeps the sessions well formed and makes the
/// identifier live.
pub proof fn lemma_after_create(sessions: Seq<SessionView>, id: Seq<char>, now: Timestamp)
    requires
        well_formed(sessions),
    ensures
        well_formed(after_create(sessions, id, now)),
        holds(after_create(sessions, id, now), id),
        forall|other: Seq<char>|
            holds(sessions, other) ==> holds(after_create(sessions, id, now), other),
{
    let after = after_create(sessions, id, now);
    if !holds(sessions, id) {
        assert(after[sessions.len() as int].id == id);
        assert forall|i: int, j: int| 0 <= i < j < after.len() implies #[trigger] after[i].id
            != #[trigger] after[j].id by {
            if j < sessions.len() {
                assert(sessions[i].id != sessions[j].id);
            } else {
                assert(sessions[i].id != id);
            }
        }
        assert forall|i: int| 0 <= i < after.len() implies #[trigger] after[i].wf() by {
            if i < sessions.len() {
                assert(sessions[i].wf());
            }
        }
    }
    assert forall|other: Seq<char>| holds(sessions, other) implies holds(after, other) by {
        let i = choose|i: int| 0 <= i < sessions.len() && #[trigger] sessions[i].id == other;
        assert(after[i].id == other);
    }
}

/// What is found under an identifier after a session is created: the
/// new session under its own identifier, and under every other identifier
/// what was found there before.
pub proof fn lemma_lookup_after_create(
    sessions: Seq<SessionView>,
    id: Seq<char>,
    now: Timestamp,
    wanted: Seq<char>,
)
    requires
        well_formed(sessions),
    ensures
        lookup(after_create(sessions, id, now), wanted) == if wanted == id && !holds(
            sessions,
            id,
        ) {
            Some(SessionView::fresh(id, now))
        } else {
            lookup(sessions, wanted)
        },
{
    let after = after_create(sessions, id, now);
    lemma_after_create(sessions, id, now);
    if !holds(sessions, id) {
        if wanted == id {
            lemma_index_of(after, id, sessions.len() as int);
        } else if holds(sessions, wanted) {
            let at = index_of(sessions, wanted)->0;
            lemma_index_of(sessions, wanted, at);
            assert(after[at] == sessions[at]);
            lemma_index_of(after, wanted, at);
        } else {
            if holds(after, wanted) {
                let i = choose|i: int| 0 <= i < after.len() && #[trigger] after[i].id == wanted;
                assert(i < sessions.len());
                assert(sessions[i].id == wanted);
            }
        }
    }
}

/// What is found under an identifier after activity on a session: the
/// touched session under its own identifier, and under every other
/// identifier what was found there before.
pub proof fn lemma_lookup_after_touch(
    sessions: Seq<SessionView>,
    id: Seq<char>,
    now: Timestamp,
    wanted: Seq<char>,
)
    requires
        well_formed(sessions),
    ensures
        lookup(after_touch(sessions, id, now), wanted) == match lookup(sessions, wanted) {
            Some(session) => Some(
                if wanted == id {
                    session.touched(now)
                } else {
                    session
                },
            ),
            None => None,
        },
{
    let after = after_touch(sessions, id, now);
    lemma_after_touch(sessions, id, now);
    if holds(sessions, wanted) {
        let at = index_of(sessions, wanted)->0;
        lemma_index_of(sessions, wanted, at);
        assert(after[at].id == wanted);
        lemma_index_of(after, wanted, at);
    }
}

/// What is found under an identifier after a span is appended to a
/// session: the session with the span at its end under its own
/// identifier, and under every other identifier what was found there
/// before.
pub proof fn lemma_lookup_after_append(
    sessions: Seq<SessionView>,
    id: Seq<char>,
    span: SpanView,
    wanted: Seq<char>,
)
    requires
        well_formed(sessions),
    ensures
        lookup(after_append(sessions, id, span), wanted) == match lookup(sessions, wanted) {
            Some(session) => Some(
                if wanted == id {
                    session.with_span(span)
                } else {
                    session
                },
            ),
            None => None,
        },
{
    let after = after_append(sessions, id, span);
    lemma_after_append(sessions, id, span);
    if holds(sessions, wanted) {
        let at = index_of(sessions, wanted)->0;
        lemma_index_of(sessions, wanted, at);
        assert(after[at].id == wanted);
        lemma_index_of(after, wanted, at);
    }
}

/// What is found under an identifier after a session is removed: nothing
/// under its own identifier, and under every other identifier what was
/// found there before.
pub proof fn lemma_lookup_after_remove(
    sessions: Seq<SessionView>,
    id: Seq<char>,
    wanted: Seq<char>,
)
    requires
        well_formed(sessions),
    ensures
        lookup(after_remove(sessions, id), wanted) == if wanted == id {
            None
        } else {
            lookup(sessions, wanted)
        },
{
    let after = after_remove(sessions, id);
    lemma_after_remove(sessions, id);
    if wanted != id && holds(sessions, id) && holds(sessions, wanted) {
        let gone = index_of(sessions, id)->0;
        let at = index_of(sessions, wanted)->0;
        lemma_index_of(sessions, wanted, at);
        let moved = if at < gone {
            at
        } else {
            at - 1
        };
        assert(sessions[gone].id == id);
        assert(after[moved] == sessions[at]);
        lemma_index_of(after, wanted, moved);
    }
}

/// How many spans were appended to the session that is live under `id`
/// after the operations `ops`, since that session was created.
pub open spec fn appended(ops: Seq<RegistryOp>, id: Seq<char>) -> nat
    decreases ops.len(),
{
    if ops.len() == 0 {
        0
    } else {
        let earlier = appended(ops.drop_last(), id);
        let live = holds(run(ops.drop_last()), id);
        match ops.last() {
            RegistryOp::Create { id: made, .. } => if made == id && !live {
                0
            } else {
                earlier
            },
            RegistryOp::Touch { .. } => earlier,
            RegistryOp::Append { id: to, .. } => if to == id && live {
                earlier + 1
            } else {
                earlier
            },
            RegistryOp::Remove { id: gone } => if gone == id {
                0
            } else {
                earlier
            },
        }
    }
}

/// A live session holds exactly as many spans as were appended to it.
pub proof fn lemma_spans_are_the_appended(ops: Seq<RegistryOp>, id: Seq<char>)
    ensures
        lookup(run(ops), id) matches Some(session) ==> session.spans.len() == appended(ops, id),
    decreases ops.len(),
{
    if ops.len() > 0 {
        let before = run(ops.drop_last());
        lemma_spans_are_the_appended(ops.drop_last(), id);
        lemma_run_well_formed(ops.drop_last());
        match ops.last() {
            RegistryOp::Create { id: made, now } => {
                lemma_lookup_after_create(before, made, now, id);
            },
            RegistryOp::Touch { id: to, now } => {
                lemma_lookup_after_touch(before, to, now, id);
            },
            RegistryOp::Append { id: to, span } => {
                lemma_lookup_after_append(before, to, span, id);
            },
            RegistryOp::Remove { id: gone } => {
                lemma_lookup_after_remove(before, gone, id);
            },
        }
    }
}

/// Every operation keeps the sessions well formed.
pub proof fn lemma_apply_well_formed(op: RegistryOp, sessions: Seq<SessionView>)
    requires
        well_formed(sessions),
    ensures
        well_formed(op.apply(sessions)),
{
    match op {
        RegistryOp::Create { id, now } => lemma_after_create(sessions, id, now),
        RegistryOp::Touch { id, now } => lemma_after_touch(sessions, id, now),
        RegistryOp::Append { id, span } => lemma_after_append(sessions, id, span),
        RegistryOp::Remove { id } => lemma_after_remove(sessions, id),
    }
}

/// Whatever was done to a registry that started empty, no two of its
/// sessions share an identifier and none was last active before it was
/// created.
pub proof fn lemma_run_well_formed(ops: Seq<RegistryOp>)
    ensures
        well_formed(run(ops)),
    decreases ops.len(),
{
    if ops.len() > 0 {
        lemma_run_well_formed(ops.drop_last());
        lemma_apply_well_formed(ops.last(), run(ops.drop_last()));
    }
}

/// The number of live sessions is the number of sessions created minus the
/// number of sessions cleared.
pub proof fn lemma_count_is_created_minus_cleared(ops: Seq<RegistryOp>)
    ensures
        run(ops).len() == created(ops) - cleared(ops),
    decreases ops.len(),
{
    if ops.len() > 0 {
        let before = run(ops.drop_last());
        lemma_count_is_created_minus_cleared(ops.drop_last());
        lemma_run_well_formed(ops.drop_last());
        match ops.last() {
            RegistryOp::Create { id, now } => {},
            RegistryOp::Touch { id, now } => lemma_after_touch(before, id, now),
            RegistryOp::Append { id, span } => lemma_after_append(before, id, span),
            RegistryOp::Remove { id } => lemma_after_remove(before, id),
        }
    }
}

/// No operation but its own removal ends the life of a session.
pub proof fn lemma_stays_live(op: RegistryOp, sessions: Seq<SessionView>, id: Seq<char>)
    requires
        well_formed(sessions),
        holds(sessions, id),
        op != (RegistryOp::Remove { id }),
    ensures
        holds(op.apply(sessions), id),
{
    match op {
        RegistryOp::Create { id: other, now } => lemma_after_create(sessions, other, now),
        RegistryOp::Touch { id: other, now } => lemma_after_touch(sessions, other, now),
        RegistryOp::Append { id: other, span } => lemma_after_append(sessions, other, span),
        RegistryOp::Remove { id: other } => lemma_after_remove(sessions, other),
    }
}

/// An identifier under which a session was started is not given to
/// another session for as long as that session is not cleared: if the
/// operation at `first` created a session under `id`, and none of the
/// operations after it up to `second` removes `id`, then the operation at
/// `second` creates no session under `id`.
pub proof fn lemma_started_identifiers_distinct(
    ops: Seq<RegistryOp>,
    first: int,
    second: int,
    id: Seq<char>,
)
    requires
        0 <= first < second < ops.len(),
        ops[first] matches RegistryOp::Create { id: made, .. } && made == id,
        ops[first].creates(run(ops.take(first))),
        forall|k: int| first < k < second ==> ops[k] != (RegistryOp::Remove { id }),
    ensures
        holds(run(ops.take(second)), id),
        !(ops[second] matches RegistryOp::Create { id: made, .. } && made == id
            && ops[second].creates(run(ops.take(second)))),
    decreases second - first,
{
    let upto = ops.take(second);
    assert(upto.drop_last() =~= ops.take(second - 1));
    assert(upto.last() == ops[second - 1]);
    lemma_run_well_formed(ops.take(second - 1));
    if second - 1 == first {
        match ops[first] {
            RegistryOp::Create { id: made, now } => {
                lemma_after_create(run(ops.take(first)), made, now);
            },
            _ => {},
        }
    } else {
        lemma_started_identifiers_distinct(ops, first, second - 1, id);
        lemma_stays_live(ops[second - 1], run(ops.take(second - 1)), id);
    }
}

/// A prompt submitted to a live session leaves the session with exactly
/// one more span, the span of the reply at the end, and with a last
/// activity that is not before the one it had.
pub proof fn lemma_prompt_adds_one_span(
    sessions: Seq<SessionView>,
    session_id: Seq<char>,
    prompt: Seq<char>,
    span_id: Seq<char>,
    now: Timestamp,
)
    requires
        well_formed(sessions),
        holds(sessions, session_id),
    ensures
        lookup(after_prompt(sessions, session_id, prompt, span_id, now), session_id) is Some,
        ({
            let before = lookup(sessions, session_id)->0;
            let after = lookup(
                after_prompt(sessions, session_id, prompt, span_id, now),
                session_id,
            )->0;
            &&& after.spans.len() == before.spans.len() + 1
            &&& after.spans == before.spans.push(prompt_span(span_id, now, session_id, prompt))
            &&& after.last_activity.at_or_after(before.last_activity)
            &&& after.created_at == before.created_at
        }),
{
    let at = index_of(sessions, session_id)->0;
    let touched = after_touch(sessions, session_id, now);
    let span = prompt_span(span_id, now, session_id, prompt);
    let after = after_append(touched, session_id, span);
    lemma_index_of(sessions, session_id, at);
    lemma_after_touch(sessions, session_id, now);
    lemma_after_append(touched, session_id, span);
    assert(touched[at].id == session_id);
    assert(after[at].id == session_id);
    lemma_index_of(after, session_id, at);
}

/// A prompt submitted to a session that is not live leaves every session
/// as it was, and creates none.
pub proof fn lemma_prompt_to_unknown_session(
    sessions: Seq<SessionView>,
    session_id: Seq<char>,
    prompt: Seq<char>,
    span_id: Seq<char>,
    now: Timestamp,
)
    requires
        !holds(sessions, session_id),
    ensures
        after_prompt(sessions, session_id, prompt, span_id, now) == sessions,
{
    let touched = after_touch(sessions, session_id, now);
    assert forall|i: int| 0 <= i < sessions.len() implies touched[i] == sessions[i] by {
        assert(sessions[i].id != session_id);
    }
    assert(touched =~= sessions);
    let after = after_prompt(sessions, session_id, prompt, span_id, now);
    assert forall|i: int| 0 <= i < sessions.len() implies after[i] == sessions[i] by {
        assert(sessions[i].id != session_id);
    }
    assert(after =~= sessions);
}

/// A read that falls back on memory right after a prompt returns the
/// spans that the session had, followed by the span of the reply.
pub proof fn lemma_read_follows_write(
    sessions: Seq<SessionView>,
    session_id: Seq<char>,
    prompt: Seq<char>,
    span_id: Seq<char>,
    now: Timestamp,
    reply: StoreReplyView,
)
    requires
        well_formed(sessions),
        holds(sessions, session_id),
        reply.usable() is None,
    ensures
        read_result(
            after_prompt(sessions, session_id, prompt, span_id, now),
            session_id,
            reply,
        ) == json_text(
            spans_doc(
                lookup(sessions, session_id)->0.spans.push(
                    prompt_span(span_id, now, session_id, prompt),
                ),
            ),
        ),
{
    lemma_prompt_adds_one_span(sessions, session_id, prompt, span_id, now);
}

/// Clearing a live session removes it: afterwards no session has the
/// identifier, and one session fewer is live.
pub proof fn lemma_cleared_session_is_gone(sessions: Seq<SessionView>, session_id: Seq<char>)
    requires
        well_formed(sessions),
        holds(sessions, session_id),
    ensures
        !holds(after_remove(sessions, session_id), session_id),
        lookup(after_remove(sessions, session_id), session_id) is None,
        after_remove(sessions, session_id).len() == sessions.len() - 1,
{
    lemma_after_remove(sessions, session_id);
}

/// A read of a session that is not live, when the durable store gives
/// nothing that can be used, returns the JSON text of no spans.
pub proof fn lemma_unknown_session_reads_empty(
    sessions: Seq<SessionView>,
    session_id: Seq<char>,
    reply: StoreReplyView,
)
    requires
        !holds(sessions, session_id),
        reply.usable() is None,
    ensures
        read_result(sessions, session_id, reply) == json_text(spans_doc(Seq::empty())),
{
}

/// Two reads of the same session return the same text when nothing was
/// written between them and the durable store replies with the same
/// usable payload, or with none, both times: how a read failed makes no
/// difference.
pub proof fn lemma_read_is_repeatable(
    sessions: Seq<SessionView>,
    session_id: Seq<char>,
    first: StoreReplyView,
    second: StoreReplyView,
)
    requires
        first.usable() == second.usable(),
    ensures
        read_result(sessions, session_id, first) == read_result(sessions, session_id, second),
{
}

/// A document in which nothing stands is rejected, and the first of its
/// errors says that it is empty.
pub proof fn lemma_empty_document_is_rejected(text: Seq<char>)
    requires
        text.len() == 0,
    ensures
        contract_errors(text).len() > 0,
        contract_errors(text)[0] == ContractError::Empty,
        ContractStatus::of(contract_errors(text)) == ContractStatus::Rejected,
{
}

/// A document with an `amount:` key and no `currency:` key is rejected,
/// and the missing currency is among its errors.
pub proof fn lemma_amount_needs_currency(text: Seq<char>)
    requires
        names_amount(text),
        !contains_text(text, "currency:"@),
    ensures
        contract_errors(text).contains(ContractError::MissingCurrency),
        ContractStatus::of(contract_errors(text)) == ContractStatus::Rejected,
{
    let blank = error_when(is_blank(text), ContractError::Empty);
    let untyped = error_when(!contains_text(text, "type:"@), ContractError::MissingType);
    let at = blank.len() + untyped.len();
    assert(contract_errors(text)[at as int] == ContractError::MissingCurrency);
}

/// A payment of an amount that names no currency is rejected, and the
/// missing currency is among its errors.
pub proof fn lemma_payment_without_currency(text: Seq<char>)
    requires
        contains_text(text, "type: payment"@),
        contains_text(text, "amount: 10"@),
        !contains_text(text, "currency:"@),
    ensures
        contract_errors(text).contains(ContractError::MissingCurrency),
        ContractStatus::of(contract_errors(text)) == ContractStatus::Rejected,
{
    reveal_strlit("amount: 10");
    reveal_strlit("amount:");
    lemma_contains_beginning(text, "amount: 10"@, "amount:"@);
    lemma_amount_needs_currency(text);
}

/// A document that has a `type:` key and no `amount:` key, is no longer
/// than 10000 bytes and holds no dangerous pattern is accepted.
pub proof fn lemma_plain_document_is_accepted(text: Seq<char>)
    requires
        contains_text(text, "type:"@),
        !names_amount(text),
        byte_len(text) <= 10000,
        forall|pattern: DangerousPattern| !holds_pattern(text, pattern),
    ensures
        contract_errors(text) == Seq::<ContractError>::empty(),
        ContractStatus::of(contract_errors(text)) == ContractStatus::Accepted,
{
    reveal_strlit("type:");
    lemma_substring_not_blank(text, "type:"@);
    assert(!holds_pattern(text, DangerousPattern::ScriptTag));
    assert(!holds_pattern(text, DangerousPattern::JavascriptUrl));
    assert(!holds_pattern(text, DangerousPattern::EvalCall));
    assert(!holds_pattern(text, DangerousPattern::FunctionCall));
    assert(contract_errors(text) =~= Seq::<ContractError>::empty());
}

/// A note of at most 10000 bytes that names no amount and no currency and
/// holds no dangerous pattern is accepted.
pub proof fn lemma_note_is_accepted(text: Seq<char>)
    requires
        contains_text(text, "type: note"@),
        byte_len(text) <= 10000,
        !contains_text(text, "currency:"@),
        !contains_text(text, "amount:"@),
        forall|pattern: DangerousPattern| !holds_pattern(text, pattern),
    ensures
        contract_errors(text) == Seq::<ContractError>::empty(),
        ContractStatus::of(contract_errors(text)) == ContractStatus::Accepted,
{
    reveal_strlit("type: note");
    reveal_strlit("type:");
    lemma_contains_beginning(text, "type: note"@, "type:"@);
    lemma_plain_document_is_accepted(text);
}

} // verus!
