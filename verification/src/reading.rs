//! How documents, requests and replies are read, which the laws of the operations speak of.
use vstd::prelude::*;
use crate::error::{CauseView, ErrorView, ReportView, ServiceError};
use crate::http::{ReplyView, SentView};
use crate::json::{json_decoded, JsonView};

verus! {

/// What a document has under a key.
pub open spec fn value_under(json: JsonView, key: Seq<char>) -> Option<JsonView> {
    match json {
        JsonView::Object(entries) if entries.contains_key(key) => Some(entries[key]),
        _ => None,
    }
}

/// The text that a document has under a key.
pub open spec fn text_under(json: JsonView, key: Seq<char>) -> Option<Seq<char>> {
    match value_under(json, key) {
        Some(JsonView::Text(text)) => Some(text),
        _ => None,
    }
}

/// The items that a document has under a key.
pub open spec fn list_under(json: JsonView, key: Seq<char>) -> Option<Seq<JsonView>> {
    match value_under(json, key) {
        Some(JsonView::Array(items)) => Some(items),
        _ => None,
    }
}

/// The keys of a document.
pub open spec fn keys_of(json: JsonView) -> Set<Seq<char>> {
    match json {
        JsonView::Object(entries) => entries.dom(),
        _ => set![],
    }
}

/// The values of the headers that have a name, in order.
pub open spec fn header_values(headers: Seq<(Seq<char>, Seq<char>)>, name: Seq<char>) -> Seq<
    Seq<char>,
>
    decreases headers.len(),
{
    if headers.len() == 0 {
        Seq::empty()
    } else if headers.last().0 == name {
        header_values(headers.drop_last(), name).push(headers.last().1)
    } else {
        header_values(headers.drop_last(), name)
    }
}

/// A reply of success came that carries a document.
pub open spec fn brought(sent: SentView, json: JsonView) -> bool {
    &&& sent matches SentView::Answered(reply)
    &&& 200 <= reply.status < 300
    &&& reply.body matches Ok(bytes)
    &&& json_decoded(bytes) == Ok::<JsonView, Seq<char>>(json)
}

/// Why a reply carries no document, where it carries none.
pub open spec fn unreadable(reply: ReplyView) -> Option<ReportView> {
    match reply.body {
        Err(report) => Some(report),
        Ok(bytes) => match json_decoded(bytes) {
            Ok(_) => None,
            Err(fault) => Some(
                ReportView {
                    message: "error decoding response body"@,
                    sources: seq![fault],
                },
            ),
        },
    }
}

/// The operation failed with the given error.
pub open spec fn failed_as<T>(result: Result<T, ServiceError>, error: ErrorView) -> bool {
    result matches Err(found) && found.deep_view() == error
}

/// A reply came that carries no document, for the given reason.
pub open spec fn brought_none(sent: SentView, why: Seq<char>) -> bool {
    &&& sent matches SentView::Answered(reply)
    &&& match reply.body {
        Ok(bytes) => json_decoded(bytes) is Err && why == "error decoding response body"@,
        Err(report) => why == report.message,
    }
}

/// A reply with a status came.
pub open spec fn came_with(sent: SentView, status: u16) -> bool {
    sent matches SentView::Answered(reply) && reply.status == status
}

/// The operation failed in general, for the given reason.
pub open spec fn failed_with<T>(result: Result<T, ServiceError>, message: Seq<char>) -> bool {
    result matches Err(error) && error.deep_view() == ErrorView::GeneralError(
        CauseView::Plain(message),
    )
}

/// The operation was refused since it was asked for something that cannot be, for the given reason.
pub open spec fn refused_with<T>(result: Result<T, ServiceError>, message: Seq<char>) -> bool {
    result matches Err(error) && error.deep_view() == ErrorView::InvalidRequestParameters(message)
}

/// The operation failed since it was asked for something that cannot be.
pub open spec fn was_refused<T>(result: Result<T, ServiceError>) -> bool {
    result matches Err(ServiceError::InvalidRequestParameters(_))
}

} // verus!
