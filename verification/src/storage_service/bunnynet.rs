//! Calls of the Bunny.net management API: how a call is sent, how its reply is read, and when
//! it is tried again.
use vstd::prelude::*;
use crate::encoding::random_up_to;
use crate::error::{general_error, ErrorReport, ErrorView, ReportView, ServiceError};
use crate::http::{
    bare_request, is_server_error, is_success, method_name, reply_json, status_display,
    status_is_server_error, status_is_success, status_text, valid_sent, with_header, with_json,
    HttpRequest, Method, RequestView, Sent, SentView, TransportError, TransportView,
};
use crate::json::{Json, JsonView};
use crate::text::{cat3, cat4, cat5, join, join_text, take_chars, truncated};

verus! {

/// A call is tried at most this often.
pub const BUNNYNET_API_MAX_ATTEMPTS: u32 = 3;

/// The delay before the first repetition, without jitter.
pub const BUNNYNET_API_RETRY_BASE_DELAY_MS: u64 = 200;

/// How much of the body of a failed call is reported.
pub const BUNNYNET_API_ERROR_BODY_MAX_CHARS: usize = 512;

/// Whether a call may be repeated once the server may have carried it out.
#[derive(Debug, Clone, Copy, PartialEq, Eq, Structural)]
pub enum BunnynetRetryPolicy {
    Idempotent,
    NonIdempotent,
}

/// Why one attempt failed, and whether another may help.
#[derive(Debug)]
pub struct BunnynetRequestFailure {
    pub error: ServiceError,
    pub retryable: bool,
}

pub struct FailureView {
    pub error: ErrorView,
    pub retryable: bool,
}

impl DeepView for BunnynetRequestFailure {
    type V = FailureView;

    open spec fn deep_view(&self) -> FailureView {
        FailureView { error: self.error.deep_view(), retryable: self.retryable }
    }
}

impl BunnynetRequestFailure {
    /// A failure after which nothing is tried again.
    pub fn fatal(error: ServiceError) -> (failure: Self)
        ensures
            failure.deep_view() == (FailureView { error: error.deep_view(), retryable: false }),
    {
        BunnynetRequestFailure { error, retryable: false }
    }
}

/// A call that got no reply may be repeated if it never reached the server, or if repeating it
/// does no harm. One that could not be put together will never succeed.
pub open spec fn transport_retryable(error: TransportView, policy: BunnynetRetryPolicy) -> bool {
    !error.is_builder && (error.is_connect || policy == BunnynetRetryPolicy::Idempotent)
}

/// Whether a call that got no reply may be repeated.
pub fn is_retryable_bunnynet_transport_error(
    err: &TransportError,
    policy: BunnynetRetryPolicy,
) -> (again: bool)
    ensures
        again == transport_retryable(err.deep_view(), policy),
{
    if err.is_builder {
        return false;
    }
    err.is_connect || policy == BunnynetRetryPolicy::Idempotent
}

/// A reply that reports a passing trouble of the server.
pub open spec fn transient_status(status: u16) -> bool {
    is_server_error(status) || status == 408 || status == 429
}

/// A call that was answered with a failure may be repeated if the trouble may pass and
/// repeating it does no harm.
pub open spec fn status_retryable(status: u16, policy: BunnynetRetryPolicy) -> bool {
    policy == BunnynetRetryPolicy::Idempotent && transient_status(status)
}

/// Whether a call that was answered with a failure may be repeated.
pub fn is_retryable_bunnynet_status(status: u16, policy: BunnynetRetryPolicy) -> (again: bool)
    ensures
        again == status_retryable(status, policy),
{
    policy == BunnynetRetryPolicy::Idempotent && (status_is_server_error(status) || status == 408
        || status == 429)
}

/// The delay after an attempt, without jitter: it doubles from one attempt to the next.
pub open spec fn base_delay(attempt: u32) -> u64 {
    BUNNYNET_API_RETRY_BASE_DELAY_MS << (if attempt == 0 {
        0u32
    } else {
        (attempt - 1) as u32
    })
}

/// The delay after an attempt, without jitter.
fn base_delay_ms(attempt: u32) -> (base: u64)
    requires
        attempt <= 64,
    ensures
        base == base_delay(attempt),
        base + base / 4 <= u64::MAX,
{
    let shift: u32 = if attempt == 0 {
        0
    } else {
        attempt - 1
    };
    assert(shift < 64 ==> (200u64 << shift) + (200u64 << shift) / 4 <= 0xffff_ffff_ffff_ffff)
        by (bit_vector);
    BUNNYNET_API_RETRY_BASE_DELAY_MS << shift
}

/// The delay after an attempt, with a given jitter.
pub fn delay_with_jitter(attempt: u32, jitter_ms: u64) -> (delay_ms: u64)
    requires
        attempt <= 64,
        jitter_ms <= base_delay(attempt) / 4,
    ensures
        delay_ms == base_delay(attempt) + jitter_ms,
{
    base_delay_ms(attempt) + jitter_ms
}

/// The delay after an attempt, with a random jitter of up to a quarter.
pub fn bunnynet_retry_delay(attempt: u32) -> (delay_ms: u64)
    requires
        attempt <= 64,
    ensures
        base_delay(attempt) <= delay_ms <= base_delay(attempt) + base_delay(attempt) / 4,
{
    let base: u64 = base_delay_ms(attempt);
    let jitter: u64 = random_up_to(base / 4);
    delay_with_jitter(attempt, jitter)
}

/// Without jitter, the first delay is the base delay, and every further delay is twice the one
/// before, as long as it fits.
pub proof fn law_delays_double(attempt: u32)
    requires
        1 <= attempt <= 56,
    ensures
        base_delay(1) == BUNNYNET_API_RETRY_BASE_DELAY_MS,
        base_delay((attempt + 1) as u32) == 2 * base_delay(attempt),
{
    assert(200u64 << 0u32 == 200) by (bit_vector);
    let shift: u32 = (attempt - 1) as u32;
    let next: u32 = attempt;
    assert(200u64 << next == 2 * (200u64 << shift)) by (bit_vector)
        requires
            next == shift + 1,
            shift <= 55,
    ;
}

/// An error and the errors that led to it, in one line.
pub open spec fn chain_text(report: ReportView) -> Seq<char> {
    join_text(seq![report.message] + report.sources, ": "@)
}

/// An error and the errors that led to it, in one line.
pub fn error_chain(err: &ErrorReport) -> (message: String)
    ensures
        message@ == chain_text(err.deep_view()),
{
    let mut parts: Vec<String> = Vec::new();
    parts.push(err.message.clone());
    let mut i: usize = 0;
    assert(parts.deep_view() =~= seq![err.message@] + err.sources.deep_view().take(0));
    while i < err.sources.len()
        invariant
            i <= err.sources@.len(),
            parts.deep_view() == seq![err.message@] + err.sources.deep_view().take(i as int),
        decreases err.sources@.len() - i,
    {
        let ghost known = parts.deep_view();
        parts.push(err.sources[i].clone());
        i += 1;
        assert(parts.deep_view() =~= known.push(err.sources.deep_view()[i - 1]));
        assert(parts.deep_view() =~= seq![err.message@] + err.sources.deep_view().take(i as int));
    }
    assert(err.sources.deep_view().take(i as int) =~= err.sources.deep_view());
    join(&parts, ": ")
}

/// A call of the API.
#[derive(Debug)]
pub struct BunnynetCall {
    pub method: Method,
    pub path: String,
    pub body: Option<Json>,
    pub policy: BunnynetRetryPolicy,
}

pub struct CallView {
    pub method: Method,
    pub path: Seq<char>,
    pub body: Option<JsonView>,
    pub policy: BunnynetRetryPolicy,
}

impl DeepView for BunnynetCall {
    type V = CallView;

    open spec fn deep_view(&self) -> CallView {
        CallView {
            method: self.method,
            path: self.path@,
            body: self.body.deep_view(),
            policy: self.policy,
        }
    }
}

/// The call that may be repeated.
pub open spec fn idempotent_call(
    method: Method,
    path: Seq<char>,
    body: Option<JsonView>,
) -> CallView {
    CallView { method, path, body, policy: BunnynetRetryPolicy::Idempotent }
}

/// The request that a call is sent as.
pub open spec fn call_request(call: CallView, api_key: Seq<char>) -> RequestView {
    let request = with_header(
        with_header(
            with_header(
                bare_request(call.method, "https://api.bunny.net"@ + "/"@ + call.path),
                "Content-Type"@,
                "application/json"@,
            ),
            "Accept"@,
            "application/json"@,
        ),
        "AccessKey"@,
        api_key,
    );
    match call.body {
        Some(body) => with_json(request, body),
        None => request,
    }
}

/// What a report of a failed call begins with.
pub open spec fn call_title(call: CallView) -> Seq<char> {
    "Bunny.net API request "@ + method_name(call.method) + " /"@ + call.path
}

/// What one attempt at a call came to. Once the server has carried out the call, a failure to
/// read its reply is final.
pub open spec fn attempt_result(call: CallView, sent: SentView) -> Result<
    Option<JsonView>,
    FailureView,
> {
    match sent {
        SentView::Failed(error) => Err(
            FailureView {
                error: general_error(
                    call_title(call) + " failed: "@ + chain_text(error.report),
                ),
                retryable: transport_retryable(error, call.policy),
            },
        ),
        SentView::Answered(reply) => if !is_success(reply.status) {
            Err(
                FailureView {
                    error: general_error(
                        call_title(call) + " responded with HTTP "@ + status_display(reply.status)
                            + ": "@ + truncated(reply.text, 512),
                    ),
                    retryable: status_retryable(reply.status, call.policy),
                },
            )
        } else {
            match reply.content_length {
                None => Err(
                    FailureView {
                        error: general_error("Failed to get response content length"@),
                        retryable: false,
                    },
                ),
                Some(length) => if length == 0 {
                    Ok(None)
                } else {
                    match reply_json(reply) {
                        Ok(json) => Ok(Some(json)),
                        Err(report) => Err(
                            FailureView {
                                error: general_error(
                                    call_title(call) + " returned an unreadable body: "@
                                        + chain_text(report),
                                ),
                                retryable: false,
                            },
                        ),
                    }
                },
            }
        },
    }
}

/// What the result of one attempt says.
pub open spec fn attempt_view(result: Result<Option<Json>, BunnynetRequestFailure>) -> Result<
    Option<JsonView>,
    FailureView,
> {
    match result {
        Ok(json) => Ok(json.deep_view()),
        Err(failure) => Err(failure.deep_view()),
    }
}

/// What the result of a call says.
pub open spec fn call_view(result: Result<Option<Json>, ServiceError>) -> Result<
    Option<JsonView>,
    ErrorView,
> {
    match result {
        Ok(json) => Ok(json.deep_view()),
        Err(error) => Err(error.deep_view()),
    }
}

/// What follows an attempt.
#[derive(Debug)]
pub enum AfterAttempt {
    Finished(Result<Option<Json>, ServiceError>),
    /// The call is to be tried again, as the attempt with a given number, after a delay.
    Again { attempt: u32, delay_ms: u64 },
}

/// Whether an attempt is followed by another.
pub open spec fn tries_again(
    result: Result<Option<JsonView>, FailureView>,
    attempt: u32,
) -> bool {
    result matches Err(failure) && failure.retryable && attempt < BUNNYNET_API_MAX_ATTEMPTS
}

/// What a call comes to when no attempt follows.
pub open spec fn final_result(result: Result<Option<JsonView>, FailureView>) -> Result<
    Option<JsonView>,
    ErrorView,
> {
    match result {
        Ok(json) => Ok(json),
        Err(failure) => Err(failure.error),
    }
}

impl BunnynetCall {
    /// The call that may be repeated.
    pub fn idempotent(method: Method, path: String, body: Option<Json>) -> (call: Self)
        ensures
            call.deep_view() == idempotent_call(method, path@, body.deep_view()),
    {
        BunnynetCall { method, path, body, policy: BunnynetRetryPolicy::Idempotent }
    }

    /// The request that the call is sent as.
    pub fn request(&self, api_key: &str) -> (request: HttpRequest)
        ensures
            request.deep_view() == call_request(self.deep_view(), api_key@),
    {
        let url = cat3("https://api.bunny.net", "/", self.path.as_str());
        let request = HttpRequest::new(self.method, url)
            .header("Content-Type", "application/json")
            .header("Accept", "application/json")
            .header("AccessKey", api_key);
        match &self.body {
            Some(body) => request.json(body.copy()),
            None => request,
        }
    }

    /// What a report of a failure begins with.
    fn title(&self) -> (title: String)
        ensures
            title@ == call_title(self.deep_view()),
    {
        let method = self.method.name();
        cat4("Bunny.net API request ", method.as_str(), " /", self.path.as_str())
    }

    /// Reads what one attempt came to.
    pub fn read_attempt(&self, sent: &Sent) -> (result: Result<
        Option<Json>,
        BunnynetRequestFailure,
    >)
        requires
            valid_sent(sent.deep_view()),
        ensures
            attempt_view(result) == attempt_result(self.deep_view(), sent.deep_view()),
    {
        let title = self.title();
        match sent {
            Sent::Failed(error) => {
                let chain = error_chain(&error.report);
                Err(
                    BunnynetRequestFailure {
                        error: ServiceError::of_message(
                            cat3(title.as_str(), " failed: ", chain.as_str()),
                        ),
                        retryable: is_retryable_bunnynet_transport_error(error, self.policy),
                    },
                )
            },
            Sent::Answered(reply) => {
                if !status_is_success(reply.status) {
                    let status = status_text(reply.status);
                    let body = take_chars(reply.text.as_str(), BUNNYNET_API_ERROR_BODY_MAX_CHARS);
                    return Err(
                        BunnynetRequestFailure {
                            error: ServiceError::of_message(
                                cat5(
                                    title.as_str(),
                                    " responded with HTTP ",
                                    status.as_str(),
                                    ": ",
                                    body.as_str(),
                                ),
                            ),
                            retryable: is_retryable_bunnynet_status(reply.status, self.policy),
                        },
                    );
                }
                match reply.content_length {
                    None => Err(
                        BunnynetRequestFailure::fatal(
                            ServiceError::of_message(
                                "Failed to get response content length".to_string(),
                            ),
                        ),
                    ),
                    Some(length) => {
                        if length == 0 {
                            return Ok(None);
                        }
                        match reply.json() {
                            Ok(json) => Ok(Some(json)),
                            Err(report) => {
                                let chain = error_chain(&report);
                                Err(
                                    BunnynetRequestFailure::fatal(
                                        ServiceError::of_message(
                                            cat3(
                                                title.as_str(),
                                                " returned an unreadable body: ",
                                                chain.as_str(),
                                            ),
                                        ),
                                    ),
                                )
                            },
                        }
                    },
                }
            },
        }
    }

    /// Reads what one attempt came to and decides what follows. Attempts count from one.
    pub fn after_attempt(&self, attempt: u32, sent: &Sent) -> (next: AfterAttempt)
        requires
            valid_sent(sent.deep_view()),
            attempt <= BUNNYNET_API_MAX_ATTEMPTS,
        ensures
            match next {
                AfterAttempt::Again { attempt: following, delay_ms } => {
                    &&& tries_again(attempt_result(self.deep_view(), sent.deep_view()), attempt)
                    &&& following == attempt + 1
                    &&& base_delay(attempt) <= delay_ms
                    &&& delay_ms <= base_delay(attempt) + base_delay(attempt) / 4
                },
                AfterAttempt::Finished(result) => {
                    &&& !tries_again(attempt_result(self.deep_view(), sent.deep_view()), attempt)
                    &&& call_view(result) == final_result(
                        attempt_result(self.deep_view(), sent.deep_view()),
                    )
                },
            },
    {
        match self.read_attempt(sent) {
            Ok(json) => AfterAttempt::Finished(Ok(json)),
            Err(failure) => if failure.retryable && attempt < BUNNYNET_API_MAX_ATTEMPTS {
                let delay_ms: u64 = bunnynet_retry_delay(attempt);
                AfterAttempt::Again { attempt: attempt + 1, delay_ms }
            } else {
                AfterAttempt::Finished(Err(failure.error))
            },
        }
    }
}

/// The number of attempts that are made at a call, starting with the given one, when the
/// attempts would come to the given ends in turn.
pub open spec fn attempts_made(
    call: CallView,
    attempt: u32,
    ends: spec_fn(u32) -> SentView,
) -> nat
    decreases BUNNYNET_API_MAX_ATTEMPTS - attempt,
{
    if attempt < BUNNYNET_API_MAX_ATTEMPTS && tries_again(
        attempt_result(call, ends(attempt)),
        attempt,
    ) {
        1 + attempts_made(call, (attempt + 1) as u32, ends)
    } else {
        1
    }
}

/// However its attempts end, a call is made at least once and at most three times.
pub proof fn law_attempts_are_bounded(call: CallView, ends: spec_fn(u32) -> SentView)
    ensures
        1 <= attempts_made(call, 1, ends) <= BUNNYNET_API_MAX_ATTEMPTS,
{
    reveal_with_fuel(attempts_made, 4);
}

/// A call that must not be repeated is not tried again once a reply has come, whatever the
/// reply is.
pub proof fn law_non_idempotent_calls_are_answered_once(
    call: CallView,
    sent: SentView,
    attempt: u32,
)
    requires
        call.policy == BunnynetRetryPolicy::NonIdempotent,
        sent is Answered,
    ensures
        !tries_again(attempt_result(call, sent), attempt),
{
}

/// A reply that blames the request is never followed by another attempt, except for a timeout
/// and for too many requests.
pub proof fn law_client_errors_never_retry(call: CallView, sent: SentView, attempt: u32)
    requires
        sent matches SentView::Answered(reply) && 400 <= reply.status < 500 && reply.status != 408
            && reply.status != 429,
    ensures
        !tries_again(attempt_result(call, sent), attempt),
{
}

/// Once the server has carried out a call, nothing is tried again.
pub proof fn law_success_is_final(call: CallView, sent: SentView, attempt: u32)
    requires
        sent matches SentView::Answered(reply) && is_success(reply.status),
    ensures
        !tries_again(attempt_result(call, sent), attempt),
{
}

/// A call that never reached the server may be repeated under both policies, unless it could
/// not even be put together.
pub proof fn law_connection_failures_retry(call: CallView, error: TransportView, attempt: u32)
    requires
        error.is_connect,
        !error.is_builder,
        attempt < BUNNYNET_API_MAX_ATTEMPTS,
    ensures
        tries_again(attempt_result(call, SentView::Failed(error)), attempt),
{
}

/// A call that could not be put together is never repeated.
pub proof fn law_builder_errors_never_retry(call: CallView, error: TransportView, attempt: u32)
    requires
        error.is_builder,
    ensures
        !tries_again(attempt_result(call, SentView::Failed(error)), attempt),
{
}

} // verus!
