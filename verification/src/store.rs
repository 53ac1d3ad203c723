//! The durable store, seen from the session service: what it is asked to
//! do and how a read from it may end. The store itself is outside this
//! library: whoever runs the service performs the requests and hands back
//! the replies.

use vstd::prelude::*;
use vstd::string::*;

verus! {

/// The options of a read that names none.
pub const DEFAULT_READ_OPTIONS: &'static str = "{}";

/// A request to the durable store. Writes carry the JSON text to persist.
#[derive(Debug)]
pub enum StoreRequest {
    SaveSession { summary: String },
    AddSpan { span: String },
    GetSpans { session_id: String, options: String },
    SaveContract { record: String },
}

/// What a request holds, as mathematical values.
pub enum StoreRequestView {
    SaveSession { summary: Seq<char> },
    AddSpan { span: Seq<char> },
    GetSpans { session_id: Seq<char>, options: Seq<char> },
    SaveContract { record: Seq<char> },
}

impl View for StoreRequest {
    type V = StoreRequestView;

    open spec fn view(&self) -> StoreRequestView {
        match *self {
            StoreRequest::SaveSession { summary } => StoreRequestView::SaveSession {
                summary: summary@,
            },
            StoreRequest::AddSpan { span } => StoreRequestView::AddSpan { span: span@ },
            StoreRequest::GetSpans { session_id, options } => StoreRequestView::GetSpans {
                session_id: session_id@,
                options: options@,
            },
            StoreRequest::SaveContract { record } => StoreRequestView::SaveContract {
                record: record@,
            },
        }
    }
}

/// How a read from the durable store ended.
#[derive(Debug)]
pub enum StoreReply {
    /// The call failed.
    Failed,
    /// The call succeeded with something that is no serialized payload.
    Unusable,
    /// The call succeeded with a serialized sequence of spans.
    Payload(String),
}

/// What a reply holds, as mathematical values.
pub enum StoreReplyView {
    Failed,
    Unusable,
    Payload(Seq<char>),
}

impl StoreReplyView {
    /// The payload of a reply that can be used: a failed call and an
    /// unusable value have none.
    pub open spec fn usable(self) -> Option<Seq<char>> {
        match self {
            StoreReplyView::Payload(payload) => Some(payload),
            _ => None,
        }
    }
}

impl View for StoreReply {
    type V = StoreReplyView;

    open spec fn view(&self) -> StoreReplyView {
        match *self {
            StoreReply::Failed => StoreReplyView::Failed,
            StoreReply::Unusable => StoreReplyView::Unusable,
            StoreReply::Payload(payload) => StoreReplyView::Payload(payload@),
        }
    }
}

impl StoreReply {
    /// The payload of the reply, if it can be used.
    pub fn usable(&self) -> (payload: Option<&String>)
        ensures
            match payload {
                Some(p) => self@.usable() == Some(p@),
                None => self@.usable() is None,
            },
    {
        match self {
            StoreReply::Payload(payload) => Some(payload),
            _ => None,
        }
    }
}

/// The options that a read is made with: those given, or the default.
pub open spec fn read_options(given: Option<Seq<char>>) -> Seq<char> {
    match given {
        Some(options) => options,
        None => DEFAULT_READ_OPTIONS@,
    }
}

/// The request that reads the spans of a session.
pub fn read_request(session_id: &str, options_json: Option<String>) -> (request: StoreRequest)
    ensures
        request@ == (StoreRequestView::GetSpans {
            session_id: session_id@,
            options: read_options(
                match options_json {
                    Some(options) => Some(options@),
                    None => None,
                },
            ),
        }),
{
    let options = match options_json {
        Some(options) => options,
        None => DEFAULT_READ_OPTIONS.to_owned(),
    };
    StoreRequest::GetSpans { session_id: session_id.to_owned(), options }
}

} // verus!
