//! What Clerk's replies of failure mean.
use vstd::prelude::*;
use crate::error::{general_error, ErrorView, ServiceError};
use crate::http::{is_server_error, status_display, status_is_server_error, status_text, valid_status};
use crate::json::{items_of, json_parsed, lookup, text_at, Json, JsonView};
use crate::text::{cat4, same_text, trim, trimmed};

verus! {

/// The first of the errors that a document lists.
pub open spec fn first_error(json: JsonView) -> Option<JsonView> {
    match lookup(json, "errors"@) {
        Some(errors) => match items_of(errors) {
            Some(items) => if items.len() > 0 {
                Some(items[0])
            } else {
                None
            },
            None => None,
        },
        None => None,
    }
}

/// The message of an error, by preference the long one.
pub open spec fn error_message(error: JsonView) -> Option<Seq<char>> {
    match text_at(error, "long_message"@) {
        Some(message) => Some(message),
        None => text_at(error, "message"@),
    }
}

/// What a document has to say to the user: the message of its first error, unless it is blank.
pub open spec fn user_facing_message(json: JsonView) -> Option<Seq<char>> {
    match first_error(json) {
        Some(error) => match error_message(error) {
            Some(message) => if trimmed(message).len() == 0 {
                None
            } else {
                Some(trimmed(message))
            },
            None => None,
        },
        None => None,
    }
}

/// What a reply has to say to the user.
pub open spec fn message_in_body(body: Seq<char>) -> Option<Seq<char>> {
    match json_parsed(body) {
        Ok(json) => user_facing_message(json),
        Err(_) => None,
    }
}

/// What a document has to say to the user.
pub fn message_in_json(json: &Json) -> (message: Option<String>)
    ensures
        message.deep_view() == user_facing_message(json.deep_view()),
{
    let errors = match json.get("errors") {
        Some(errors) => errors,
        None => {
            return None;
        },
    };
    let items = match errors.as_array() {
        Some(items) => items,
        None => {
            return None;
        },
    };
    if items.len() == 0 {
        return None;
    }
    let error = &items[0];
    assert(items.deep_view()[0] == error.deep_view());
    let message = match error.text_at("long_message") {
        Some(message) => message,
        None => match error.text_at("message") {
            Some(message) => message,
            None => {
                return None;
            },
        },
    };
    let visible = trim(message.as_str());
    if visible.as_str().is_empty() {
        None
    } else {
        Some(visible)
    }
}

/// What a reply has to say to the user.
pub fn clerk_user_facing_message(body: &str) -> (message: Option<String>)
    ensures
        message.deep_view() == message_in_body(body@),
{
    match Json::parse(body) {
        Ok(json) => message_in_json(&json),
        Err(_) => None,
    }
}

/// The error that a reply of failure stands for, given what it has to say to the user.
pub open spec fn failure_with_message(
    status: u16,
    body: Seq<char>,
    message: Option<Seq<char>>,
) -> ErrorView {
    let report = "Clerk API error ("@ + status_display(status) + "): "@ + body;
    if (status == 400 || status == 422) && message is Some {
        ErrorView::InvalidRequestParameters(message->0)
    } else if status == 408 || status == 429 || is_server_error(status) {
        ErrorView::NotReadyError(report)
    } else {
        general_error(report)
    }
}

/// The error that a reply of failure stands for. What the user got wrong is told to the user;
/// what may pass can be tried again.
pub open spec fn clerk_failure(status: u16, body: Seq<char>) -> ErrorView {
    failure_with_message(status, body, message_in_body(body))
}

/// The error that a reply of failure stands for, given what it has to say to the user.
pub fn error_with_message(status: u16, body: &str, message: Option<String>) -> (error: ServiceError)
    requires
        valid_status(status),
    ensures
        error.deep_view() == failure_with_message(status, body@, message.deep_view()),
{
    if status == 400 || status == 422 {
        if let Some(message) = message {
            return ServiceError::InvalidRequestParameters(message);
        }
    }
    let shown = status_text(status);
    let report = cat4("Clerk API error (", shown.as_str(), "): ", body);
    if status == 408 || status == 429 || status_is_server_error(status) {
        return ServiceError::NotReadyError(report);
    }
    ServiceError::of_message(report)
}

/// The error that a reply of failure stands for; `context` names the operation that failed.
pub fn clerk_error(context: &str, status: u16, body: &str) -> (error: ServiceError)
    requires
        valid_status(status),
    ensures
        error.deep_view() == clerk_failure(status, body@),
{
    let message = clerk_user_facing_message(body);
    error_with_message(status, body, message)
}

/// The error says that the name of an organization is taken.
pub open spec fn is_slug_conflict(error: JsonView) -> bool {
    &&& text_at(error, "code"@) == Some("form_identifier_exists"@)
    &&& (lookup(error, "meta"@) matches Some(meta) && text_at(meta, "param_name"@) == Some(
        "slug"@,
    ))
}

/// A document lists an error that says that the name of an organization is taken.
pub open spec fn lists_slug_conflict(json: JsonView) -> bool {
    match lookup(json, "errors"@) {
        Some(errors) => match items_of(errors) {
            Some(items) => exists|i: int|
                0 <= i < items.len() && is_slug_conflict(#[trigger] items[i]),
            None => false,
        },
        None => false,
    }
}

/// Whether an error says that the name of an organization is taken.
fn slug_conflict(error: &Json) -> (conflict: bool)
    ensures
        conflict == is_slug_conflict(error.deep_view()),
{
    let code = match error.text_at("code") {
        Some(code) => code,
        None => {
            return false;
        },
    };
    if !same_text(code.as_str(), "form_identifier_exists") {
        return false;
    }
    match error.get("meta") {
        Some(meta) => match meta.text_at("param_name") {
            Some(name) => same_text(name.as_str(), "slug"),
            None => false,
        },
        None => false,
    }
}

/// Whether a document lists an error that says that the name of an organization is taken.
pub fn slug_conflict_in_json(json: &Json) -> (conflict: bool)
    ensures
        conflict == lists_slug_conflict(json.deep_view()),
{
    let items = match json.get("errors") {
        Some(errors) => match errors.as_array() {
            Some(items) => items,
            None => {
                return false;
            },
        },
        None => {
            return false;
        },
    };
    let mut i: usize = 0;
    while i < items.len()
        invariant
            i <= items@.len(),
            lookup(json.deep_view(), "errors"@) matches Some(errors) && items_of(errors) == Some(
                items.deep_view(),
            ),
            forall|j: int| 0 <= j < i ==> !is_slug_conflict(#[trigger] items.deep_view()[j]),
        decreases items@.len() - i,
    {
        assert(items.deep_view()[i as int] == items@[i as int].deep_view());
        if slug_conflict(&items[i]) {
            proof {
                let listed = items_of(lookup(json.deep_view(), "errors"@)->0)->0;
                assert(listed.len() == items@.len());
                assert(is_slug_conflict(listed[i as int]));
            }
            return true;
        }
        i += 1;
    }
    false
}

/// Whether a reply says that the name of an organization is taken.
pub fn is_duplicate_slug_error(body: &str) -> (conflict: bool)
    ensures
        conflict == (json_parsed(body@) matches Ok(json) && lists_slug_conflict(json)),
{
    match Json::parse(body) {
        Ok(json) => slug_conflict_in_json(&json),
        Err(_) => false,
    }
}

/// A failure of the server, a timeout and too many requests can be tried again, whatever the
/// reply says.
pub proof fn law_transient_failures_are_retryable(status: u16, body: Seq<char>)
    requires
        status == 408 || status == 429 || is_server_error(status),
    ensures
        crate::error::retryable(clerk_failure(status, body)),
{
}

/// A refusal for lack of authorization is not tried again, and Clerk's message, which speaks of
/// our key, is never taken for one to the user.
pub proof fn law_refusals_are_final(status: u16, body: Seq<char>)
    requires
        status == 401 || status == 403,
    ensures
        clerk_failure(status, body) is GeneralError,
        !crate::error::retryable(clerk_failure(status, body)),
{
}

/// Only what the user can act on becomes a message to the user.
pub proof fn law_user_messages_come_from_validation(status: u16, body: Seq<char>)
    ensures
        clerk_failure(status, body) is InvalidRequestParameters <==> (status == 400 || status
            == 422) && message_in_body(body) is Some,
{
}

} // verus!
