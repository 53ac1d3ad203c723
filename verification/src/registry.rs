//! The session registry: the sessions that are live in this process, each
//! with its spans in the order in which they were appended.

use crate::clock::Timestamp;
use crate::span::{Span, SpanView};
use crate::stats::SessionStats;
use crate::text::same_text;
use vstd::prelude::*;
use vstd::string::*;

verus! {

/// What a session holds, as mathematical values.
pub struct SessionView {
    pub id: Seq<char>,
    pub spans: Seq<SpanView>,
    pub created_at: Timestamp,
    pub last_activity: Timestamp,
}

impl SessionView {
    /// A session made at the instant `now`, with no spans yet.
    pub open spec fn fresh(id: Seq<char>, now: Timestamp) -> SessionView {
        SessionView { id, spans: Seq::empty(), created_at: now, last_activity: now }
    }

    /// The session after activity at the instant `now`: the last activity
    /// moves to `now`, unless `now` is earlier than it.
    pub open spec fn touched(self, now: Timestamp) -> SessionView {
        SessionView { last_activity: now.later_of(self.last_activity), ..self }
    }

    /// The session with one more span at the end.
    pub open spec fn with_span(self, span: SpanView) -> SessionView {
        SessionView { spans: self.spans.push(span), ..self }
    }

    /// The last activity of a session is never before its creation.
    pub open spec fn wf(self) -> bool {
        self.last_activity.at_or_after(self.created_at)
    }
}

/// A session with this identifier is among `sessions`.
pub open spec fn holds(sessions: Seq<SessionView>, id: Seq<char>) -> bool {
    exists|i: int| 0 <= i < sessions.len() && #[trigger] sessions[i].id == id
}

/// No two of `sessions` have the same identifier.
pub open spec fn distinct_ids(sessions: Seq<SessionView>) -> bool {
    forall|i: int, j: int|
        0 <= i < j < sessions.len() ==> #[trigger] sessions[i].id != #[trigger] sessions[j].id
}

/// What holds of the sessions of every registry.
pub open spec fn well_formed(sessions: Seq<SessionView>) -> bool {
    &&& distinct_ids(sessions)
    &&& forall|i: int| 0 <= i < sessions.len() ==> #[trigger] sessions[i].wf()
}

/// Where the session with this identifier stands among `sessions`.
pub open spec fn index_of(sessions: Seq<SessionView>, id: Seq<char>) -> Option<int> {
    if holds(sessions, id) {
        Some(choose|i: int| 0 <= i < sessions.len() && #[trigger] sessions[i].id == id)
    } else {
        None
    }
}

/// The session with this identifier, if there is one.
pub open spec fn lookup(sessions: Seq<SessionView>, id: Seq<char>) -> Option<SessionView> {
    match index_of(sessions, id) {
        Some(i) => Some(sessions[i]),
        None => None,
    }
}

/// The sessions after a session is created: one more at the end, unless
/// the identifier is taken.
pub open spec fn after_create(sessions: Seq<SessionView>, id: Seq<char>, now: Timestamp) -> Seq<
    SessionView,
> {
    if holds(sessions, id) {
        sessions
    } else {
        sessions.push(SessionView::fresh(id, now))
    }
}

/// The sessions after activity on one of them.
pub open spec fn after_touch(sessions: Seq<SessionView>, id: Seq<char>, now: Timestamp) -> Seq<
    SessionView,
> {
    sessions.map_values(
        |s: SessionView|
            if s.id == id {
                s.touched(now)
            } else {
                s
            },
    )
}

/// The sessions after a span is appended to one of them.
pub open spec fn after_append(sessions: Seq<SessionView>, id: Seq<char>, span: SpanView) -> Seq<
    SessionView,
> {
    sessions.map_values(
        |s: SessionView|
            if s.id == id {
                s.with_span(span)
            } else {
                s
            },
    )
}

/// The sessions after one of them is removed.
pub open spec fn after_remove(sessions: Seq<SessionView>, id: Seq<char>) -> Seq<SessionView> {
    match index_of(sessions, id) {
        Some(i) => sessions.remove(i),
        None => sessions,
    }
}

/// Among sessions with distinct identifiers, a session is found where it
/// stands.
pub proof fn lemma_index_of(sessions: Seq<SessionView>, id: Seq<char>, at: int)
    requires
        distinct_ids(sessions),
        0 <= at < sessions.len(),
        sessions[at].id == id,
    ensures
        holds(sessions, id),
        index_of(sessions, id) == Some(at),
        lookup(sessions, id) == Some(sessions[at]),
{
    let found = choose|i: int| 0 <= i < sessions.len() && #[trigger] sessions[i].id == id;
    if found < at {
        assert(sessions[found].id != sessions[at].id);
    } else if at < found {
        assert(sessions[at].id != sessions[found].id);
    }
}

/// Activity on a session keeps the sessions well formed, and keeps every
/// session in its place under its identifier.
pub proof fn lemma_after_touch(sessions: Seq<SessionView>, id: Seq<char>, now: Timestamp)
    requires
        well_formed(sessions),
    ensures
        well_formed(after_touch(sessions, id, now)),
        after_touch(sessions, id, now).len() == sessions.len(),
        forall|i: int|
            0 <= i < sessions.len() ==> (#[trigger] after_touch(sessions, id, now)[i]).id
                == sessions[i].id,
        forall|other: Seq<char>|
            holds(after_touch(sessions, id, now), other) == holds(sessions, other),
{
    let after = after_touch(sessions, id, now);
    assert forall|other: Seq<char>| holds(after, other) == holds(sessions, other) by {
        if holds(after, other) {
            let i = choose|i: int| 0 <= i < after.len() && #[trigger] after[i].id == other;
            assert(sessions[i].id == other);
        }
        if holds(sessions, other) {
            let i = choose|i: int| 0 <= i < sessions.len() && #[trigger] sessions[i].id == other;
            assert(after[i].id == other);
        }
    }
    assert forall|i: int| 0 <= i < after.len() implies #[trigger] after[i].wf() by {
        assert(sessions[i].wf());
    }
    assert forall|i: int, j: int| 0 <= i < j < after.len() implies #[trigger] after[i].id
        != #[trigger] after[j].id by {
        assert(sessions[i].id != sessions[j].id);
    }
}

/// Appending a span keeps the sessions well formed, and keeps every
/// session in its place under its identifier.
pub proof fn lemma_after_append(sessions: Seq<SessionView>, id: Seq<char>, span: SpanView)
    requires
        well_formed(sessions),
    ensures
        well_formed(after_append(sessions, id, span)),
        after_append(sessions, id, span).len() == sessions.len(),
        forall|i: int|
            0 <= i < sessions.len() ==> (#[trigger] after_append(sessions, id, span)[i]).id
                == sessions[i].id,
        forall|other: Seq<char>|
            holds(after_append(sessions, id, span), other) == holds(sessions, other),
{
    let after = after_append(sessions, id, span);
    assert forall|other: Seq<char>| holds(after, other) == holds(sessions, other) by {
        if holds(after, other) {
            let i = choose|i: int| 0 <= i < after.len() && #[trigger] after[i].id == other;
            assert(sessions[i].id == other);
        }
        if holds(sessions, other) {
            let i = choose|i: int| 0 <= i < sessions.len() && #[trigger] sessions[i].id == other;
            assert(after[i].id == other);
        }
    }
    assert forall|i: int| 0 <= i < after.len() implies #[trigger] after[i].wf() by {
        assert(sessions[i].wf());
    }
    assert forall|i: int, j: int| 0 <= i < j < after.len() implies #[trigger] after[i].id
        != #[trigger] after[j].id by {
        assert(sessions[i].id != sessions[j].id);
    }
}

/// One session: its identifier, its spans in the order in which they were
/// appended, and when it was created and last active.
#[derive(Debug)]
pub struct SessionData {
    id: String,
    spans: Vec<Span>,
    created_at: Timestamp,
    last_activity: Timestamp,
}

impl View for SessionData {
    type V = SessionView;

    closed spec fn view(&self) -> SessionView {
        SessionView {
            id: self.id@,
            spans: crate::span::span_views(self.spans@),
            created_at: self.created_at,
            last_activity: self.last_activity,
        }
    }
}

impl SessionData {
    /// A session made at the instant `now`, with no spans yet.
    pub fn new(id: String, now: Timestamp) -> (session: SessionData)
        ensures
            session@ == SessionView::fresh(id@, now),
    {
        let session = SessionData { id, spans: Vec::new(), created_at: now, last_activity: now };
        proof {
            assert(session@.spans =~= Seq::empty());
        }
        session
    }

    /// Records activity at the instant `now`: the last activity moves to
    /// `now`, unless `now` is earlier than it.
    pub fn update_activity(&mut self, now: Timestamp)
        ensures
            final(self)@ == old(self)@.touched(now),
    {
        self.last_activity = now.latest(self.last_activity);
    }

    /// Appends a span.
    pub fn push_span(&mut self, span: Span)
        ensures
            final(self)@ == old(self)@.with_span(span@),
    {
        self.spans.push(span);
        proof {
            assert(final(self)@.spans =~= old(self)@.spans.push(span@));
        }
    }

    /// The identifier of the session.
    pub fn id(&self) -> (id: &String)
        ensures
            id@ == self@.id,
    {
        &self.id
    }

    /// The spans of the session, in the order in which they were appended.
    pub fn spans(&self) -> (spans: &Vec<Span>)
        ensures
            crate::span::span_views(spans@) == self@.spans,
    {
        &self.spans
    }

    /// When the session was created.
    pub fn created_at(&self) -> (instant: Timestamp)
        ensures
            instant == self@.created_at,
    {
        self.created_at
    }

    /// When the session was last active.
    pub fn last_activity(&self) -> (instant: Timestamp)
        ensures
            instant == self@.last_activity,
    {
        self.last_activity
    }
}

/// The sessions that are live, keyed by their identifiers.
pub struct Registry {
    sessions: Vec<SessionData>,
}

impl View for Registry {
    type V = Seq<SessionView>;

    closed spec fn view(&self) -> Seq<SessionView> {
        Seq::new(self.sessions@.len(), |i: int| self.sessions@[i]@)
    }
}

impl Registry {
    /// What holds of every registry: no two sessions share an identifier,
    /// and no session was last active before it was created.
    pub open spec fn wf(&self) -> bool {
        well_formed(self@)
    }

    /// A registry without sessions.
    pub fn new() -> (registry: Registry)
        ensures
            registry@ == Seq::<SessionView>::empty(),
            registry.wf(),
    {
        let registry = Registry { sessions: Vec::new() };
        proof {
            assert(registry@ =~= Seq::<SessionView>::empty());
        }
        registry
    }

    /// Where the session with this identifier stands.
    fn locate(&self, id: &str) -> (place: Option<usize>)
        ensures
            match place {
                Some(i) => i < self@.len() && self@[i as int].id == id@,
                None => !holds(self@, id@),
            },
    {
        let mut i: usize = 0;
        while i < self.sessions.len()
            invariant
                i <= self.sessions@.len(),
                forall|j: int| 0 <= j < i ==> (#[trigger] self@[j]).id != id@,
            decreases self.sessions@.len() - i,
        {
            if same_text(self.sessions[i].id.as_str(), id) {
                return Some(i);
            }
            i += 1;
        }
        None
    }

    /// How many sessions are live.
    pub fn count(&self) -> (count: usize)
        ensures
            count == self@.len(),
    {
        self.sessions.len()
    }

    /// Whether a session with this identifier is live.
    pub fn contains(&self, id: &str) -> (live: bool)
        ensures
            live == holds(self@, id@),
    {
        self.locate(id).is_some()
    }

    /// Creates a session with this identifier at the instant `now`. Nothing
    /// is created where the identifier is taken, and the result says so.
    pub fn create(&mut self, id: String, now: Timestamp) -> (created: bool)
        requires
            old(self).wf(),
        ensures
            final(self).wf(),
            created == !holds(old(self)@, id@),
            final(self)@ == after_create(old(self)@, id@, now),
    {
        if self.locate(id.as_str()).is_some() {
            return false;
        }
        let session = SessionData::new(id, now);
        self.sessions.push(session);
        proof {
            assert(final(self)@ =~= old(self)@.push(SessionView::fresh(id@, now)));
        }
        true
    }

    /// Records activity at the instant `now` on the session with this
    /// identifier. Nothing changes where there is no such session, and the
    /// result says so.
    pub fn touch(&mut self, id: &str, now: Timestamp) -> (found: bool)
        requires
            old(self).wf(),
        ensures
            final(self).wf(),
            found == holds(old(self)@, id@),
            final(self)@ == after_touch(old(self)@, id@, now),
    {
        match self.locate(id) {
            Some(i) => {
                let mut session = self.sessions.remove(i);
                session.update_activity(now);
                self.sessions.insert(i, session);
                proof {
                    assert(final(self)@ =~= after_touch(old(self)@, id@, now));
                    lemma_after_touch(old(self)@, id@, now);
                }
                true
            },
            None => {
                proof {
                    assert(final(self)@ =~= after_touch(old(self)@, id@, now));
                }
                false
            },
        }
    }

    /// Appends a span to the session with this identifier. Nothing changes
    /// where there is no such session: none is created, and the result
    /// says that the span was not appended.
    pub fn append(&mut self, id: &str, span: Span) -> (appended: bool)
        requires
            old(self).wf(),
        ensures
            final(self).wf(),
            appended == holds(old(self)@, id@),
            final(self)@ == after_append(old(self)@, id@, span@),
    {
        match self.locate(id) {
            Some(i) => {
                let mut session = self.sessions.remove(i);
                session.push_span(span);
                self.sessions.insert(i, session);
                proof {
                    assert(final(self)@ =~= after_append(old(self)@, id@, span@));
                    lemma_after_append(old(self)@, id@, span@);
                }
                true
            },
            None => {
                proof {
                    assert(final(self)@ =~= after_append(old(self)@, id@, span@));
                }
                false
            },
        }
    }

    /// Removes the session with this identifier and its spans. The result
    /// says whether there was one.
    pub fn remove(&mut self, id: &str) -> (existed: bool)
        requires
            old(self).wf(),
        ensures
            final(self).wf(),
            existed == holds(old(self)@, id@),
            final(self)@ == after_remove(old(self)@, id@),
            !holds(final(self)@, id@),
    {
        match self.locate(id) {
            Some(i) => {
                proof {
                    lemma_index_of(self@, id@, i as int);
                }
                self.sessions.remove(i);
                proof {
                    assert(final(self)@ =~= old(self)@.remove(i as int));
                }
                true
            },
            None => false,
        }
    }

    /// The session with this identifier, if it is live.
    pub fn get(&self, id: &str) -> (session: Option<&SessionData>)
        requires
            self.wf(),
        ensures
            match session {
                Some(s) => lookup(self@, id@) == Some(s@),
                None => lookup(self@, id@) is None,
            },
    {
        match self.locate(id) {
            Some(i) => {
                proof {
                    lemma_index_of(self@, id@, i as int);
                }
                Some(&self.sessions[i])
            },
            None => None,
        }
    }

    /// The statistics of the session with this identifier, if it is live.
    pub fn stats(&self, id: &str) -> (stats: Option<SessionStats>)
        requires
            self.wf(),
        ensures
            match stats {
                Some(s) => lookup(self@, id@) is Some && s.describes(lookup(self@, id@)->0),
                None => lookup(self@, id@) is None,
            },
    {
        match self.get(id) {
            Some(session) => Some(SessionStats::of(session)),
            None => None,
        }
    }
}

} // verus!
