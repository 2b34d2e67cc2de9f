//! HTTP requests and replies as plain values. Sending a request is left to the caller.
use vstd::prelude::*;
use crate::error::{ErrorReport, ReportView};
use crate::json::{json_decoded, Json, JsonView};

verus! {

#[derive(Debug, Clone, Copy, PartialEq, Eq, Structural)]
pub enum Method {
    Get,
    Head,
    Post,
    Put,
    Patch,
    Delete,
}

/// The name of a method.
pub open spec fn method_name(method: Method) -> Seq<char> {
    match method {
        Method::Get => "GET"@,
        Method::Head => "HEAD"@,
        Method::Post => "POST"@,
        Method::Put => "PUT"@,
        Method::Patch => "PATCH"@,
        Method::Delete => "DELETE"@,
    }
}

impl Method {
    /// The name of the method.
    pub fn name(&self) -> (name: String)
        ensures
            name@ == method_name(*self),
    {
        match self {
            Method::Get => "GET".to_string(),
            Method::Head => "HEAD".to_string(),
            Method::Post => "POST".to_string(),
            Method::Put => "PUT".to_string(),
            Method::Patch => "PATCH".to_string(),
            Method::Delete => "DELETE".to_string(),
        }
    }
}

/// How a request identifies its sender.
#[derive(Debug)]
pub enum Credentials {
    Anonymous,
    Bearer(String),
    Basic(String, String),
}

pub enum CredentialsView {
    Anonymous,
    Bearer(Seq<char>),
    Basic(Seq<char>, Seq<char>),
}

impl DeepView for Credentials {
    type V = CredentialsView;

    open spec fn deep_view(&self) -> CredentialsView {
        match self {
            Credentials::Anonymous => CredentialsView::Anonymous,
            Credentials::Bearer(token) => CredentialsView::Bearer(token@),
            Credentials::Basic(user, password) => CredentialsView::Basic(user@, password@),
        }
    }
}

/// What a request carries.
#[derive(Debug)]
pub enum Payload {
    Nothing,
    Json(Json),
    Form(Vec<(String, String)>),
    Bytes(Vec<u8>),
}

pub enum PayloadView {
    Nothing,
    Json(JsonView),
    Form(Seq<(Seq<char>, Seq<char>)>),
    Bytes(Seq<u8>),
}

impl DeepView for Payload {
    type V = PayloadView;

    open spec fn deep_view(&self) -> PayloadView {
        match self {
            Payload::Nothing => PayloadView::Nothing,
            Payload::Json(json) => PayloadView::Json(json.deep_view()),
            Payload::Form(fields) => PayloadView::Form(fields.deep_view()),
            Payload::Bytes(bytes) => PayloadView::Bytes(bytes@),
        }
    }
}

/// A request. Headers are listed in the order in which they are set.
#[derive(Debug)]
pub struct HttpRequest {
    pub method: Method,
    pub url: String,
    pub headers: Vec<(String, String)>,
    pub credentials: Credentials,
    pub payload: Payload,
}

pub struct RequestView {
    pub method: Method,
    pub url: Seq<char>,
    pub headers: Seq<(Seq<char>, Seq<char>)>,
    pub credentials: CredentialsView,
    pub payload: PayloadView,
}

impl DeepView for HttpRequest {
    type V = RequestView;

    open spec fn deep_view(&self) -> RequestView {
        RequestView {
            method: self.method,
            url: self.url@,
            headers: self.headers.deep_view(),
            credentials: self.credentials.deep_view(),
            payload: self.payload.deep_view(),
        }
    }
}

/// The request with a method and an address, and nothing else.
pub open spec fn bare_request(method: Method, url: Seq<char>) -> RequestView {
    RequestView {
        method,
        url,
        headers: seq![],
        credentials: CredentialsView::Anonymous,
        payload: PayloadView::Nothing,
    }
}

/// The request with one more header.
pub open spec fn with_header(
    request: RequestView,
    name: Seq<char>,
    value: Seq<char>,
) -> RequestView {
    RequestView { headers: request.headers.push((name, value)), ..request }
}

/// The request with the given headers after its own.
pub open spec fn with_headers(
    request: RequestView,
    headers: Seq<(Seq<char>, Seq<char>)>,
) -> RequestView {
    RequestView { headers: request.headers + headers, ..request }
}

/// The request with other credentials.
pub open spec fn with_credentials(
    request: RequestView,
    credentials: CredentialsView,
) -> RequestView {
    RequestView { credentials, ..request }
}

/// The request with a document to carry.
pub open spec fn with_json(request: RequestView, json: JsonView) -> RequestView {
    RequestView { payload: PayloadView::Json(json), ..request }
}

impl HttpRequest {
    /// The request with a method and an address, and nothing else.
    pub fn new(method: Method, url: String) -> (request: HttpRequest)
        ensures
            request.deep_view() == bare_request(method, url@),
    {
        let request = HttpRequest {
            method,
            url,
            headers: Vec::new(),
            credentials: Credentials::Anonymous,
            payload: Payload::Nothing,
        };
        assert(request.headers.deep_view() =~= seq![]);
        request
    }

    /// The request with one more header.
    pub fn header(self, name: &str, value: &str) -> (request: HttpRequest)
        ensures
            request.deep_view() == with_header(self.deep_view(), name@, value@),
    {
        let ghost before = self.headers.deep_view();
        let mut headers = self.headers;
        headers.push((name.to_string(), value.to_string()));
        assert(headers.deep_view() =~= before.push((name@, value@)));
        HttpRequest { headers, ..self }
    }

    /// The request with the given headers after its own.
    pub fn all_headers(self, extra: &Vec<(String, String)>) -> (request: HttpRequest)
        ensures
            request.deep_view() == with_headers(self.deep_view(), extra.deep_view()),
    {
        let ghost before = self.headers.deep_view();
        let mut headers = self.headers;
        let mut i: usize = 0;
        assert(headers.deep_view() =~= before + extra.deep_view().take(0));
        while i < extra.len()
            invariant
                i <= extra@.len(),
                headers.deep_view() == before + extra.deep_view().take(i as int),
            decreases extra@.len() - i,
        {
            let ghost known = headers.deep_view();
            let name = extra[i].0.clone();
            let value = extra[i].1.clone();
            headers.push((name, value));
            i += 1;
            assert(headers.deep_view() =~= known.push(extra.deep_view()[i - 1]));
            assert(headers.deep_view() =~= before + extra.deep_view().take(i as int));
        }
        assert(extra.deep_view().take(i as int) =~= extra.deep_view());
        HttpRequest { headers, ..self }
    }

    /// The request with a bearer token.
    pub fn bearer(self, token: &str) -> (request: HttpRequest)
        ensures
            request.deep_view() == with_credentials(
                self.deep_view(),
                CredentialsView::Bearer(token@),
            ),
    {
        HttpRequest { credentials: Credentials::Bearer(token.to_string()), ..self }
    }

    /// The request with a user name and a password.
    pub fn basic(self, user: &str, password: &str) -> (request: HttpRequest)
        ensures
            request.deep_view() == with_credentials(
                self.deep_view(),
                CredentialsView::Basic(user@, password@),
            ),
    {
        HttpRequest {
            credentials: Credentials::Basic(user.to_string(), password.to_string()),
            ..self
        }
    }

    /// The request with a document to carry.
    pub fn json(self, json: Json) -> (request: HttpRequest)
        ensures
            request.deep_view() == with_json(self.deep_view(), json.deep_view()),
    {
        HttpRequest { payload: Payload::Json(json), ..self }
    }
}

/// A reply that has been received.
#[derive(Debug)]
pub struct HttpReply {
    pub status: u16,
    pub content_length: Option<u64>,
    /// The body as text; empty where it could not be received.
    pub text: String,
    /// The body, or why it could not be received.
    pub body: Result<Vec<u8>, ErrorReport>,
}

pub struct ReplyView {
    pub status: u16,
    pub content_length: Option<u64>,
    pub text: Seq<char>,
    pub body: Result<Seq<u8>, ReportView>,
}

impl DeepView for HttpReply {
    type V = ReplyView;

    open spec fn deep_view(&self) -> ReplyView {
        ReplyView {
            status: self.status,
            content_length: self.content_length,
            text: self.text@,
            body: match self.body {
                Ok(bytes) => Ok(bytes@),
                Err(report) => Err(report.deep_view()),
            },
        }
    }
}

/// Why no reply was received.
#[derive(Debug)]
pub struct TransportError {
    pub report: ErrorReport,
    /// The request could not even be put together.
    pub is_builder: bool,
    /// No connection was made.
    pub is_connect: bool,
}

pub struct TransportView {
    pub report: ReportView,
    pub is_builder: bool,
    pub is_connect: bool,
}

impl DeepView for TransportError {
    type V = TransportView;

    open spec fn deep_view(&self) -> TransportView {
        TransportView {
            report: self.report.deep_view(),
            is_builder: self.is_builder,
            is_connect: self.is_connect,
        }
    }
}

/// What came of sending a request.
#[derive(Debug)]
pub enum Sent {
    Answered(HttpReply),
    Failed(TransportError),
}

pub enum SentView {
    Answered(ReplyView),
    Failed(TransportView),
}

impl DeepView for Sent {
    type V = SentView;

    open spec fn deep_view(&self) -> SentView {
        match self {
            Sent::Answered(reply) => SentView::Answered(reply.deep_view()),
            Sent::Failed(error) => SentView::Failed(error.deep_view()),
        }
    }
}

/// Statuses have three digits.
pub open spec fn valid_status(status: u16) -> bool {
    100 <= status <= 999
}

/// A reply that was received has a status of three digits.
pub open spec fn valid_sent(sent: SentView) -> bool {
    sent matches SentView::Answered(reply) ==> valid_status(reply.status)
}

/// The status says that the request succeeded.
pub open spec fn is_success(status: u16) -> bool {
    200 <= status < 300
}

/// The status says that the server failed.
pub open spec fn is_server_error(status: u16) -> bool {
    500 <= status < 600
}

/// Whether the status says that the request succeeded.
pub fn status_is_success(status: u16) -> (success: bool)
    ensures
        success == is_success(status),
{
    200 <= status && status < 300
}

/// Whether the status says that the server failed.
pub fn status_is_server_error(status: u16) -> (failure: bool)
    ensures
        failure == is_server_error(status),
{
    500 <= status && status < 600
}

/// How a status is shown: the number, and what it stands for.
pub uninterp spec fn status_display(status: u16) -> Seq<char>;

/// `http::StatusCode`'s `Display`, on the status with a given number. A status can be made
/// from every number of three digits.
#[verifier::external_body]
pub(crate) fn status_text(status: u16) -> (text: String)
    requires
        valid_status(status),
    ensures
        text@ == status_display(status),
{
    http::StatusCode::from_u16(status).unwrap().to_string()
}

/// The document that a reply carries, or why there is none.
pub open spec fn reply_json(reply: ReplyView) -> Result<JsonView, ReportView> {
    match reply.body {
        Ok(bytes) => match json_decoded(bytes) {
            Ok(json) => Ok(json),
            Err(fault) => Err(
                ReportView {
                    message: "error decoding response body"@,
                    sources: seq![fault],
                },
            ),
        },
        Err(report) => Err(report),
    }
}

impl ErrorReport {
    /// A copy of the report.
    pub fn copy(&self) -> (report: ErrorReport)
        ensures
            report.deep_view() == self.deep_view(),
    {
        let sources = self.sources.clone();
        assert(sources.deep_view() =~= self.sources.deep_view());
        ErrorReport { message: self.message.clone(), sources }
    }
}

impl HttpReply {
    /// The document that the reply carries, or why there is none.
    pub fn json(&self) -> (json: Result<Json, ErrorReport>)
        ensures
            match json {
                Ok(json) => reply_json(self.deep_view()) == Ok::<JsonView, ReportView>(
                    json.deep_view(),
                ),
                Err(report) => reply_json(self.deep_view()) == Err::<JsonView, ReportView>(
                    report.deep_view(),
                ),
            },
    {
        match &self.body {
            Ok(bytes) => match Json::decode(bytes) {
                Ok(json) => Ok(json),
                Err(fault) => {
                    let mut sources: Vec<String> = Vec::new();
                    let ghost wording = fault@;
                    sources.push(fault);
                    assert(sources.deep_view() =~= seq![wording]);
                    Err(
                        ErrorReport {
                            message: "error decoding response body".to_string(),
                            sources,
                        },
                    )
                },
            },
            Err(report) => Err(report.copy()),
        }
    }
}

} // verus!
