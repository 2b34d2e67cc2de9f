//! What the calls of Bunny.net amount to.
use vstd::prelude::*;
use vstd::arithmetic::power2::{lemma2_to64, lemma_pow2_unfold, pow2};
use crate::error::{CauseView, ErrorView};
use crate::http::{
    status_display, CredentialsView, HttpRequest, Method, PayloadView, Sent, SentView,
    TransportError,
};
use crate::json::{json_decoded, Json, JsonView};
use crate::reading::unreadable;
use crate::storage_service::bunnynet::{
    base_delay, bunnynet_retry_delay, delay_with_jitter, is_retryable_bunnynet_status,
    is_retryable_bunnynet_transport_error, law_delays_double, AfterAttempt, BunnynetCall,
    BunnynetRequestFailure, BunnynetRetryPolicy,
};
use crate::text::join_text;

verus! {

/// A call is sent to its path at the API, with its method and its body, with the key of the API,
/// and it accepts and carries JSON.
pub proof fn law_calls_are_sent(call: &BunnynetCall, api_key: &str, request: HttpRequest)
    requires
        call_ensures(BunnynetCall::request, (call, api_key), request),
    ensures
        ({
            let request = request.deep_view();
            &&& request.method == call.method
            &&& request.url == "https://api.bunny.net/"@ + call.path@
            &&& request.headers.len() == 3
            &&& request.headers.contains(("Content-Type"@, "application/json"@))
            &&& request.headers.contains(("Accept"@, "application/json"@))
            &&& request.headers.contains(("AccessKey"@, api_key@))
            &&& request.credentials == CredentialsView::Anonymous
            &&& request.payload == (match call.body {
                Some(body) => PayloadView::Json(body.deep_view()),
                None => PayloadView::Nothing,
            })
        }),
{
    reveal_strlit("https://api.bunny.net");
    reveal_strlit("/");
    reveal_strlit("https://api.bunny.net/");
    assert("https://api.bunny.net"@ + "/"@ =~= "https://api.bunny.net/"@);
    let headers = request.deep_view().headers;
    assert(headers[0] == ("Content-Type"@, "application/json"@));
    assert(headers[1] == ("Accept"@, "application/json"@));
    assert(headers[2] == ("AccessKey"@, api_key@));
}

/// The name of a method as it stands in reports.
pub open spec fn shown_method(method: Method) -> Seq<char> {
    match method {
        Method::Get => "GET"@,
        Method::Head => "HEAD"@,
        Method::Post => "POST"@,
        Method::Put => "PUT"@,
        Method::Patch => "PATCH"@,
        Method::Delete => "DELETE"@,
    }
}

/// A call that was answered with success comes to the document of the reply, and to nothing where
/// the reply is empty. Any other reply, a reply that does not tell its length and one that cannot
/// be read are failures, and so is the lack of a reply; each names the call. A failure to read a
/// reply of success is never a reason to repeat the call.
pub proof fn law_attempts_are_read(
    call: &BunnynetCall,
    sent: &Sent,
    result: Result<Option<Json>, BunnynetRequestFailure>,
    json: JsonView,
)
    requires
        call_ensures(BunnynetCall::read_attempt, (call, sent), result),
    ensures
        ({
            let title = "Bunny.net API request "@ + shown_method(call.method) + " /"@ + call.path@;
            match sent.deep_view() {
                SentView::Answered(reply) => if 200 <= reply.status < 300 {
                    &&& reply.content_length == Some(0u64) ==> (result matches Ok(None))
                    &&& reply.content_length is None ==> (result matches Err(failure)
                        && !failure.retryable && failure.error.deep_view()
                        == ErrorView::GeneralError(
                        CauseView::Plain("Failed to get response content length"@),
                    ))
                    &&& (reply.content_length matches Some(length) && length > 0) ==> {
                        &&& (reply.body matches Ok(bytes) && json_decoded(bytes) == Ok::<
                            JsonView,
                            Seq<char>,
                        >(json)) ==> (result matches Ok(Some(document)) && document.deep_view()
                            == json)
                        &&& unreadable(reply) matches Some(report) ==> (result matches Err(failure)
                            && !failure.retryable && failure.error.deep_view()
                            == ErrorView::GeneralError(
                            CauseView::Plain(
                                title + " returned an unreadable body: "@ + join_text(
                                    seq![report.message] + report.sources,
                                    ": "@,
                                ),
                            ),
                        ))
                    }
                } else {
                    &&& result matches Err(failure)
                    &&& failure.error.deep_view() == ErrorView::GeneralError(
                        CauseView::Plain(
                            title + " responded with HTTP "@ + status_display(reply.status) + ": "@
                                + reply.text.take(
                                if reply.text.len() < 512 {
                                    reply.text.len() as int
                                } else {
                                    512
                                },
                            ),
                        ),
                    )
                    &&& failure.retryable <==> call.policy == BunnynetRetryPolicy::Idempotent && (
                    500 <= reply.status < 600 || reply.status == 408 || reply.status == 429)
                },
                SentView::Failed(error) => {
                    &&& result matches Err(failure)
                    &&& failure.error.deep_view() == ErrorView::GeneralError(
                        CauseView::Plain(
                            title + " failed: "@ + join_text(
                                seq![error.report.message] + error.report.sources,
                                ": "@,
                            ),
                        ),
                    )
                    &&& failure.retryable <==> !error.is_builder && (error.is_connect
                        || call.policy == BunnynetRetryPolicy::Idempotent)
                },
            }
        }),
{
    if let SentView::Answered(reply) = sent.deep_view() {
        if reply.text.len() <= 512 {
            assert(reply.text.take(reply.text.len() as int) =~= reply.text);
        }
    }
}

/// After an attempt the call is made again exactly where it failed, may be repeated, and has been
/// made at most twice; the wait is 200 milliseconds after the first attempt and 400 after the
/// second, and up to a quarter more. Otherwise it comes to what the attempt came to.
pub proof fn law_attempts_are_repeated(
    call: &BunnynetCall,
    attempt: u32,
    sent: &Sent,
    result: Result<Option<Json>, BunnynetRequestFailure>,
    next: AfterAttempt,
)
    requires
        1 <= attempt <= 3,
        call_ensures(BunnynetCall::read_attempt, (call, sent), result),
        call_ensures(BunnynetCall::after_attempt, (call, attempt, sent), next),
    ensures
        next is Again <==> (result matches Err(failure) && failure.retryable && attempt < 3),
        next matches AfterAttempt::Again { attempt: following, delay_ms } ==> {
            let base: int = if attempt == 1 {
                200
            } else {
                400
            };
            &&& following == attempt + 1
            &&& base <= delay_ms <= base + base / 4
        },
        next matches AfterAttempt::Finished(finished) ==> match result {
            Ok(None) => finished matches Ok(None),
            Ok(Some(json)) => finished matches Ok(Some(document)) && document.deep_view()
                == json.deep_view(),
            Err(failure) => finished matches Err(error) && error.deep_view()
                == failure.error.deep_view(),
        },
{
    assert(200u64 << 0u32 == 200) by (bit_vector);
    assert(200u64 << 1u32 == 400) by (bit_vector);
}

proof fn lemma_base_delay(attempt: u32)
    requires
        1 <= attempt <= 57,
    ensures
        base_delay(attempt) == 200 * pow2((attempt - 1) as nat),
    decreases attempt,
{
    if attempt == 1 {
        lemma2_to64();
        assert(200u64 << 0u32 == 200) by (bit_vector);
    } else {
        let before: u32 = (attempt - 1) as u32;
        lemma_base_delay(before);
        law_delays_double(before);
        lemma_pow2_unfold((attempt - 1) as nat);
        let power = pow2((before - 1) as nat);
        assert(2 * (200 * power) == 200 * (2 * power)) by (nonlinear_arith);
    }
}

/// The wait after an attempt is 200 milliseconds, doubled with every attempt after the first, and
/// up to a quarter more; with a given jitter it is that much more.
pub proof fn law_waits_double(attempt: u32, jitter_ms: u64, delay_ms: u64, exact_ms: u64)
    requires
        attempt <= 57,
        call_ensures(bunnynet_retry_delay, (attempt,), delay_ms),
        call_ensures(delay_with_jitter, (attempt, jitter_ms), exact_ms),
    ensures
        ({
            let base = 200 * pow2(
                (if attempt == 0 {
                    0int
                } else {
                    attempt - 1
                }) as nat,
            );
            &&& base <= delay_ms <= base + base / 4
            &&& exact_ms == base + jitter_ms
        }),
{
    if attempt == 0 {
        lemma2_to64();
        assert(200u64 << 0u32 == 200) by (bit_vector);
    } else {
        lemma_base_delay(attempt);
    }
}

/// Only a call that may be repeated is tried again once it was answered, and only for a passing
/// trouble; without an answer it is tried again where it did not get through, too. One that could
/// not be put together is not tried again.
pub proof fn law_passing_troubles(
    status: u16,
    err: &TransportError,
    policy: BunnynetRetryPolicy,
    answered: bool,
    unanswered: bool,
)
    requires
        call_ensures(is_retryable_bunnynet_status, (status, policy), answered),
        call_ensures(is_retryable_bunnynet_transport_error, (err, policy), unanswered),
    ensures
        answered <==> policy == BunnynetRetryPolicy::Idempotent && (500 <= status < 600 || status
            == 408 || status == 429),
        unanswered <==> !err.is_builder && (err.is_connect || policy
            == BunnynetRetryPolicy::Idempotent),
{
}

} // verus!
