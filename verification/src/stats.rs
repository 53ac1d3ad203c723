//! Statistics of a session: how many spans of each type it holds, and how
//! much room they take when written out.

use crate::clock::Timestamp;
use crate::json::{
    json_text, new_object, number_value, object_fields, object_value, put, render, text_value,
    value_doc, JsonDoc,
};
use crate::registry::{SessionData, SessionView};
use crate::span::{span_views, Span, SpanView};
use crate::text::{byte_len, same_text};
use vstd::prelude::*;
use vstd::string::*;

verus! {

/// Bytes in a kilobyte.
pub const BYTES_PER_KB: u128 = 1024;

/// How many of `spans` have the type tag `kind`.
pub open spec fn occurrences(spans: Seq<SpanView>, kind: Seq<char>) -> nat
    decreases spans.len(),
{
    if spans.len() == 0 {
        0
    } else {
        occurrences(spans.drop_last(), kind) + if spans.last().kind() == kind {
            1nat
        } else {
            0nat
        }
    }
}

/// How many bytes the JSON texts of `spans` take together.
pub open spec fn serialized_bytes(spans: Seq<SpanView>) -> nat
    decreases spans.len(),
{
    if spans.len() == 0 {
        0
    } else {
        serialized_bytes(spans.drop_last()) + byte_len(json_text(spans.last().doc()))
    }
}

/// The size of `spans` in whole kilobytes of JSON text, and never more
/// than a `u64` holds.
pub open spec fn memory_usage_kb(spans: Seq<SpanView>) -> nat {
    let kb = serialized_bytes(spans) / 1024;
    if kb > u64::MAX {
        u64::MAX as nat
    } else {
        kb
    }
}

/// How many spans of one type a session holds.
#[derive(Debug)]
pub struct TypeCount {
    pub kind: String,
    pub count: usize,
}

/// `counts` is the histogram of the types of `spans`: one entry for each
/// type tag that occurs among them, none for any other, each with the
/// number of spans of that type.
pub open spec fn is_histogram(counts: Seq<TypeCount>, spans: Seq<SpanView>) -> bool {
    &&& forall|i: int, j: int|
        0 <= i < j < counts.len() ==> (#[trigger] counts[i]).kind@ != (#[trigger] counts[j]).kind@
    &&& forall|i: int|
        0 <= i < counts.len() ==> (#[trigger] counts[i]).count == occurrences(
            spans,
            counts[i].kind@,
        ) && counts[i].count > 0
    &&& forall|kind: Seq<char>| #[trigger]
        occurrences(spans, kind) > 0 ==> exists|i: int|
            0 <= i < counts.len() && (#[trigger] counts[i]).kind@ == kind
}

/// The members of the JSON object of a histogram: each type tag that
/// occurs among `spans`, with the number of spans of that type.
pub open spec fn histogram_fields(spans: Seq<SpanView>) -> Map<Seq<char>, JsonDoc> {
    Map::new(
        |kind: Seq<char>| occurrences(spans, kind) > 0,
        |kind: Seq<char>| JsonDoc::Number(occurrences(spans, kind) as int),
    )
}

/// The members of the JSON object that is built by putting each entry of
/// `counts` under its type tag, in order.
pub open spec fn counts_fields(counts: Seq<TypeCount>) -> Map<Seq<char>, JsonDoc>
    decreases counts.len(),
{
    if counts.len() == 0 {
        Map::empty()
    } else {
        counts_fields(counts.drop_last()).insert(
            counts.last().kind@,
            JsonDoc::Number(counts.last().count as int),
        )
    }
}

/// No type occurs more often among spans than there are spans.
pub proof fn lemma_occurrences_bound(spans: Seq<SpanView>, kind: Seq<char>)
    ensures
        occurrences(spans, kind) <= spans.len(),
    decreases spans.len(),
{
    if spans.len() > 0 {
        lemma_occurrences_bound(spans.drop_last(), kind);
    }
}

/// The object built from the histogram of `spans` holds exactly the
/// members of `histogram_fields(spans)`.
pub proof fn lemma_histogram_fields(counts: Seq<TypeCount>, spans: Seq<SpanView>)
    requires
        is_histogram(counts, spans),
    ensures
        counts_fields(counts) == histogram_fields(spans),
{
    lemma_counts_fields(counts, spans, counts.len() as int);
    assert(counts.take(counts.len() as int) =~= counts);
    let built = counts_fields(counts);
    let wanted = histogram_fields(spans);
    assert forall|kind: Seq<char>| built.dom().contains(kind) <==> wanted.dom().contains(
        kind,
    ) by {
        if wanted.dom().contains(kind) {
            assert(occurrences(spans, kind) > 0);
            let i = choose|i: int| 0 <= i < counts.len() && (#[trigger] counts[i]).kind@ == kind;
            assert(counts[i].kind@ == kind);
        }
    }
    assert(built =~= wanted);
}

/// What the object built from the first `upto` entries of a histogram
/// holds: those entries' type tags, each with its number of spans.
proof fn lemma_counts_fields(counts: Seq<TypeCount>, spans: Seq<SpanView>, upto: int)
    requires
        is_histogram(counts, spans),
        0 <= upto <= counts.len(),
    ensures
        forall|kind: Seq<char>|
            counts_fields(counts.take(upto)).dom().contains(kind) <==> exists|i: int|
                0 <= i < upto && (#[trigger] counts[i]).kind@ == kind,
        forall|kind: Seq<char>| #[trigger]
            counts_fields(counts.take(upto)).dom().contains(kind) ==> counts_fields(
                counts.take(upto),
            )[kind] == JsonDoc::Number(occurrences(spans, kind) as int),
    decreases upto,
{
    let head = counts.take(upto);
    if upto > 0 {
        lemma_counts_fields(counts, spans, upto - 1);
        assert(head.drop_last() =~= counts.take(upto - 1));
        assert(head.last() == counts[upto - 1]);
        let before = counts_fields(counts.take(upto - 1));
        assert forall|kind: Seq<char>|
            counts_fields(head).dom().contains(kind) <==> exists|i: int|
                0 <= i < upto && (#[trigger] counts[i]).kind@ == kind by {
            if counts_fields(head).dom().contains(kind) {
                if kind == counts[upto - 1].kind@ {
                    assert(counts[upto - 1].kind@ == kind);
                } else {
                    assert(before.dom().contains(kind));
                    let i = choose|i: int|
                        0 <= i < upto - 1 && (#[trigger] counts[i]).kind@ == kind;
                    assert(counts[i].kind@ == kind);
                }
            }
            if exists|i: int| 0 <= i < upto && (#[trigger] counts[i]).kind@ == kind {
                let i = choose|i: int| 0 <= i < upto && (#[trigger] counts[i]).kind@ == kind;
                if i < upto - 1 {
                    assert(counts[i].kind@ == kind);
                    assert(before.dom().contains(kind));
                }
            }
        }
    }
}

/// A histogram grows with a span of a type that it has no entry for.
proof fn lemma_histogram_push(counts: Seq<TypeCount>, spans: Seq<SpanView>, entry: TypeCount)
    requires
        spans.len() > 0,
        is_histogram(counts, spans.drop_last()),
        entry.kind@ == spans.last().kind(),
        entry.count == 1,
        forall|i: int| 0 <= i < counts.len() ==> (#[trigger] counts[i]).kind@ != entry.kind@,
    ensures
        is_histogram(counts.push(entry), spans),
{
    let grown = counts.push(entry);
    let before = spans.drop_last();
    if occurrences(before, entry.kind@) > 0 {
        let i = choose|i: int| 0 <= i < counts.len() && (#[trigger] counts[i]).kind@ == entry.kind@;
        assert(counts[i].kind@ != entry.kind@);
    }
    assert forall|kind: Seq<char>| #[trigger] occurrences(spans, kind) > 0 implies exists|i: int|
        0 <= i < grown.len() && (#[trigger] grown[i]).kind@ == kind by {
        if kind == entry.kind@ {
            assert(grown[counts.len() as int].kind@ == kind);
        } else {
            assert(occurrences(before, kind) > 0);
            let i = choose|i: int| 0 <= i < counts.len() && (#[trigger] counts[i]).kind@ == kind;
            assert(grown[i].kind@ == kind);
        }
    }
}

/// A histogram counts one more in the entry of the type of a further span.
proof fn lemma_histogram_bump(
    counts: Seq<TypeCount>,
    spans: Seq<SpanView>,
    at: int,
    entry: TypeCount,
)
    requires
        spans.len() > 0,
        is_histogram(counts, spans.drop_last()),
        0 <= at < counts.len(),
        counts[at].kind@ == spans.last().kind(),
        entry.kind@ == counts[at].kind@,
        entry.count == counts[at].count + 1,
    ensures
        is_histogram(counts.update(at, entry), spans),
{
    let bumped = counts.update(at, entry);
    let before = spans.drop_last();
    assert forall|i: int, j: int| 0 <= i < j < bumped.len() implies (#[trigger] bumped[i]).kind@ != (
    #[trigger] bumped[j]).kind@ by {
        assert(counts[i].kind@ != counts[j].kind@);
    }
    assert forall|i: int| 0 <= i < bumped.len() implies (#[trigger] bumped[i]).count == occurrences(
        spans,
        bumped[i].kind@,
    ) && bumped[i].count > 0 by {
        if i != at {
            assert(counts[i].count == occurrences(before, counts[i].kind@));
            if i < at {
                assert(counts[i].kind@ != counts[at].kind@);
            } else {
                assert(counts[at].kind@ != counts[i].kind@);
            }
        } else {
            assert(counts[at].count == occurrences(before, counts[at].kind@));
        }
    }
    assert forall|kind: Seq<char>| #[trigger] occurrences(spans, kind) > 0 implies exists|i: int|
        0 <= i < bumped.len() && (#[trigger] bumped[i]).kind@ == kind by {
        if kind == entry.kind@ {
            assert(bumped[at].kind@ == kind);
        } else {
            assert(occurrences(before, kind) > 0);
            let i = choose|i: int| 0 <= i < counts.len() && (#[trigger] counts[i]).kind@ == kind;
            assert(bumped[i].kind@ == kind);
        }
    }
}

/// Where the entry for a type tag stands in a list of counts.
fn entry_of(counts: &Vec<TypeCount>, kind: &str) -> (place: Option<usize>)
    ensures
        match place {
            Some(i) => i < counts@.len() && counts@[i as int].kind@ == kind@,
            None => forall|i: int| 0 <= i < counts@.len() ==> (#[trigger] counts@[i]).kind@ != kind@,
        },
{
    let mut i: usize = 0;
    while i < counts.len()
        invariant
            i <= counts@.len(),
            forall|j: int| 0 <= j < i ==> (#[trigger] counts@[j]).kind@ != kind@,
        decreases counts@.len() - i,
    {
        if same_text(counts[i].kind.as_str(), kind) {
            return Some(i);
        }
        i += 1;
    }
    None
}

/// Counts the spans of each type.
pub fn count_span_types(spans: &Vec<Span>) -> (counts: Vec<TypeCount>)
    ensures
        is_histogram(counts@, span_views(spans@)),
{
    let ghost views = span_views(spans@);
    let mut counts: Vec<TypeCount> = Vec::new();
    let mut i: usize = 0;
    proof {
        assert(views.take(0) =~= Seq::empty());
    }
    while i < spans.len()
        invariant
            i <= spans@.len(),
            views == span_views(spans@),
            is_histogram(counts@, views.take(i as int)),
        decreases spans@.len() - i,
    {
        let kind = spans[i].kind();
        proof {
            assert(views.take(i + 1).drop_last() =~= views.take(i as int));
            assert(views.take(i + 1).last() == spans@[i as int]@);
        }
        match entry_of(&counts, kind) {
            Some(j) => {
                let ghost before = counts@;
                proof {
                    lemma_occurrences_bound(views.take(i as int), before[j as int].kind@);
                }
                let entry = counts.remove(j);
                let bumped = TypeCount { kind: entry.kind, count: entry.count + 1 };
                proof {
                    lemma_histogram_bump(before, views.take(i + 1), j as int, bumped);
                }
                counts.insert(j, bumped);
                proof {
                    assert(counts@ =~= before.update(j as int, bumped));
                }
            },
            None => {
                let entry = TypeCount { kind: kind.to_owned(), count: 1 };
                proof {
                    lemma_histogram_push(counts@, views.take(i + 1), entry);
                }
                counts.push(entry);
            },
        }
        i += 1;
    }
    proof {
        assert(views.take(spans@.len() as int) =~= views);
    }
    counts
}

/// Estimates the room that spans take: the bytes of their JSON texts, in
/// whole kilobytes.
pub fn estimate_memory_usage(spans: &Vec<Span>) -> (kb: u64)
    ensures
        kb == memory_usage_kb(span_views(spans@)),
{
    let ghost views = span_views(spans@);
    let mut bytes: u128 = 0;
    let mut i: usize = 0;
    proof {
        assert(views.take(0) =~= Seq::empty());
    }
    while i < spans.len()
        invariant
            i <= spans@.len(),
            views == span_views(spans@),
            bytes == serialized_bytes(views.take(i as int)),
            bytes <= i * 0xffff_ffff_ffff_ffff,
        decreases spans@.len() - i,
    {
        let text = spans[i].to_json();
        let length = text.as_str().as_bytes().len();
        proof {
            assert(views.take(i + 1).drop_last() =~= views.take(i as int));
            assert(views.take(i + 1).last() == spans@[i as int]@);
            assert((i + 1) * 0xffff_ffff_ffff_ffff <= 0xffff_ffff_ffff_ffff * 0xffff_ffff_ffff_ffff)
                by (nonlinear_arith)
                requires
                    i + 1 <= 0xffff_ffff_ffff_ffff,
            ;
            assert((i + 1) * 0xffff_ffff_ffff_ffff == i * 0xffff_ffff_ffff_ffff
                + 0xffff_ffff_ffff_ffff) by (nonlinear_arith);
        }
        bytes = bytes + (length as u128);
        i += 1;
    }
    proof {
        assert(views.take(spans@.len() as int) =~= views);
    }
    let kb = bytes / BYTES_PER_KB;
    if kb > 0xffff_ffff_ffff_ffff {
        u64::MAX
    } else {
        kb as u64
    }
}

/// Builds the JSON object of a list of counts, putting each entry under
/// its type tag, in order.
fn counts_value(counts: &Vec<TypeCount>) -> (value: serde_json::Value)
    ensures
        value_doc(value) == JsonDoc::Object(counts_fields(counts@)),
{
    let mut members = new_object();
    let mut i: usize = 0;
    proof {
        assert(counts@.take(0) =~= Seq::empty());
    }
    while i < counts.len()
        invariant
            i <= counts.len(),
            object_fields(members) == counts_fields(counts@.take(i as int)),
        decreases counts.len() - i,
    {
        proof {
            assert(counts@.take(i + 1).drop_last() =~= counts@.take(i as int));
            assert(counts@.take(i + 1).last() == counts@[i as int]);
        }
        put(&mut members, counts[i].kind.as_str(), number_value(counts[i].count as u64));
        i += 1;
    }
    proof {
        assert(counts@.take(counts@.len() as int) =~= counts@);
    }
    object_value(members)
}

/// What is reported of a session.
#[derive(Debug)]
pub struct SessionStats {
    pub session_id: String,
    pub created_at: Timestamp,
    pub last_activity: Timestamp,
    pub total_spans: usize,
    /// How many spans of each type there are; one entry for each type that
    /// occurs.
    pub span_types: Vec<TypeCount>,
    /// The room that the spans take as JSON text, in whole kilobytes.
    pub memory_usage_kb: u64,
}

/// The JSON document of the statistics of a session.
pub open spec fn stats_doc(session: SessionView) -> JsonDoc {
    JsonDoc::Object(
        map![
            "session_id"@ => JsonDoc::Text(session.id),
            "created_at"@ => JsonDoc::Text(session.created_at.text()),
            "last_activity"@ => JsonDoc::Text(session.last_activity.text()),
            "total_spans"@ => JsonDoc::Number(session.spans.len() as int),
            "span_types"@ => JsonDoc::Object(histogram_fields(session.spans)),
            "memory_usage_kb"@ => JsonDoc::Number(memory_usage_kb(session.spans) as int),
        ],
    )
}

impl SessionStats {
    /// The statistics are those of `session`.
    pub open spec fn describes(&self, session: SessionView) -> bool {
        &&& self.session_id@ == session.id
        &&& self.created_at == session.created_at
        &&& self.last_activity == session.last_activity
        &&& self.total_spans == session.spans.len()
        &&& is_histogram(self.span_types@, session.spans)
        &&& self.memory_usage_kb == memory_usage_kb(session.spans)
    }

    /// The JSON document of the statistics.
    pub open spec fn doc(&self) -> JsonDoc {
        JsonDoc::Object(
            map![
                "session_id"@ => JsonDoc::Text(self.session_id@),
                "created_at"@ => JsonDoc::Text(self.created_at.text()),
                "last_activity"@ => JsonDoc::Text(self.last_activity.text()),
                "total_spans"@ => JsonDoc::Number(self.total_spans as int),
                "span_types"@ => JsonDoc::Object(counts_fields(self.span_types@)),
                "memory_usage_kb"@ => JsonDoc::Number(self.memory_usage_kb as int),
            ],
        )
    }

    /// The statistics of a session are written as the document of that
    /// session's statistics.
    pub proof fn lemma_doc(&self, session: SessionView)
        requires
            self.describes(session),
        ensures
            self.doc() == stats_doc(session),
    {
        lemma_histogram_fields(self.span_types@, session.spans);
    }

    /// The statistics of a session.
    pub fn of(session: &SessionData) -> (stats: SessionStats)
        ensures
            stats.describes(session@),
    {
        let spans = session.spans();
        SessionStats {
            session_id: session.id().clone(),
            created_at: session.created_at(),
            last_activity: session.last_activity(),
            total_spans: spans.len(),
            span_types: count_span_types(spans),
            memory_usage_kb: estimate_memory_usage(spans),
        }
    }

    /// Writes the statistics as JSON text.
    pub fn to_json(&self) -> (text: String)
        ensures
            text@ == json_text(self.doc()),
    {
        let mut members = new_object();
        put(&mut members, "session_id", text_value(self.session_id.as_str()));
        let created = self.created_at.to_rfc3339();
        put(&mut members, "created_at", text_value(created.as_str()));
        let active = self.last_activity.to_rfc3339();
        put(&mut members, "last_activity", text_value(active.as_str()));
        put(&mut members, "total_spans", number_value(self.total_spans as u64));
        put(&mut members, "span_types", counts_value(&self.span_types));
        put(&mut members, "memory_usage_kb", number_value(self.memory_usage_kb));
        let value = object_value(members);
        render(&value)
    }
}

} // verus!
