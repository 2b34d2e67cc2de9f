//! Talking to S3: objects, passing failures, and uploads.
use vstd::prelude::*;
use crate::error::{
    aws_s3_client_error, general_error, invalid, outcome, ErrorReport, ErrorView, ServiceError,
};
use crate::http::{
    bare_request, with_header, HttpRequest, Method, Payload, PayloadView, RequestView,
};
use crate::storage_service::aws_s3_service::{with_tagging, AwsS3Service};
use crate::storage_service::s3_uri::{s3_parts, AwsS3Uri};
use crate::text::{cat2, cat3, cat5, same_text};
use crate::types::{AdapterConfig, AdapterConfigView, ContentHeadInfo, HeadInfoView};

verus! {

/// A request is repeated at most this often.
pub const S3_TRANSIENT_MAX_RETRIES: u32 = 2;

/// An object in a bucket.
#[derive(Debug)]
pub struct S3Object {
    pub region: String,
    pub bucket_name: String,
    pub object_key: String,
    pub filename: String,
}

pub struct S3ObjectView {
    pub region: Seq<char>,
    pub bucket_name: Seq<char>,
    pub object_key: Seq<char>,
    pub filename: Seq<char>,
}

impl DeepView for S3Object {
    type V = S3ObjectView;

    open spec fn deep_view(&self) -> S3ObjectView {
        S3ObjectView {
            region: self.region@,
            bucket_name: self.bucket_name@,
            object_key: self.object_key@,
            filename: self.filename@,
        }
    }
}

/// The object that a URI names in the bucket of an adapter.
pub open spec fn object_of(content_uri: Seq<char>, config: AdapterConfigView) -> Result<
    S3ObjectView,
    ErrorView,
> {
    match config {
        AdapterConfigView::AwsS3(config) => match s3_parts(content_uri) {
            Err(error) => Err(error),
            Ok(parts) => if parts.bucket_name != config.bucket_name {
                Err(
                    ErrorView::InvalidRequestParameters(
                        "Content URI = ["@ + content_uri + "] and Bucket Name = ["@
                            + config.bucket_name + "] are mismatched"@,
                    ),
                )
            } else {
                Ok(
                    S3ObjectView {
                        region: config.region,
                        bucket_name: parts.bucket_name,
                        object_key: parts.object_key,
                        filename: parts.filename,
                    },
                )
            },
        },
        _ => Err(ErrorView::InvalidRequestParameters("Invalid AWS S3 Adapter config"@)),
    }
}

/// The object that a URI names in the bucket of an adapter.
pub fn locate_object(content_uri: &str, adapter_config: &AdapterConfig) -> (object: Result<
    S3Object,
    ServiceError,
>)
    ensures
        outcome(object) == object_of(content_uri@, adapter_config.deep_view()),
{
    let config = match adapter_config {
        AdapterConfig::AwsS3(config) => config,
        _ => {
            return invalid("Invalid AWS S3 Adapter config");
        },
    };
    let parts = match AwsS3Uri::parse(content_uri) {
        Ok(parts) => parts,
        Err(error) => {
            return Err(error);
        },
    };
    if !same_text(parts.bucket_name.as_str(), config.bucket_name.as_str()) {
        let message = cat5(
            "Content URI = [",
            content_uri,
            "] and Bucket Name = [",
            config.bucket_name.as_str(),
            "] are mismatched",
        );
        return invalid(message.as_str());
    }
    Ok(
        S3Object {
            region: config.region.clone(),
            bucket_name: parts.bucket_name,
            object_key: parts.object_key,
            filename: parts.filename,
        },
    )
}

/// What kind of failure the S3 client reports.
#[derive(Debug, Clone, Copy, PartialEq, Eq, Structural)]
pub enum SdkFault {
    /// The request could not be delivered.
    Dispatch,
    /// No answer came in time.
    Timeout,
    Other,
}

/// A failure that the S3 client reports, as it is displayed.
#[derive(Debug)]
pub struct SdkFailure {
    pub fault: SdkFault,
    pub shown: String,
}

/// A failure of the connection, which a moment later may be gone.
pub open spec fn transient_fault(fault: SdkFault) -> bool {
    fault == SdkFault::Dispatch || fault == SdkFault::Timeout
}

/// The seconds to wait after an attempt. Attempts count from zero.
pub open spec fn transient_delay(attempt: nat) -> nat
    decreases attempt,
{
    if attempt == 0 {
        1
    } else {
        2 * transient_delay((attempt - 1) as nat)
    }
}

/// What follows a failed attempt.
#[derive(Debug)]
pub enum AfterFailure {
    /// The request is to be sent again, as the attempt with a given number, after a delay.
    Again { attempt: u32, delay_secs: u64 },
    GiveUp(ServiceError),
}

/// A failed attempt is followed by another where the failure may pass and there have been at
/// most two.
pub open spec fn tries_again(fault: SdkFault, attempt: u32) -> bool {
    transient_fault(fault) && attempt < S3_TRANSIENT_MAX_RETRIES
}

/// What follows a failed attempt: another, after a delay, or an error that begins with the given
/// report and ends with what the client said.
pub open spec fn follows_failure(
    next: AfterFailure,
    report: Seq<char>,
    attempt: u32,
    failure: &SdkFailure,
) -> bool {
    match next {
        AfterFailure::Again { attempt: following, delay_secs } => {
            &&& tries_again(failure.fault, attempt)
            &&& following == attempt + 1
            &&& delay_secs == transient_delay(attempt as nat)
        },
        AfterFailure::GiveUp(error) => {
            &&& !tries_again(failure.fault, attempt)
            &&& error.deep_view() == aws_s3_client_error(report + failure.shown@)
        },
    }
}

/// Decides what follows a failed attempt.
fn after_failure(report: &str, attempt: u32, failure: &SdkFailure) -> (next: AfterFailure)
    ensures
        follows_failure(next, report@, attempt, failure),
{
    let transient = failure.fault == SdkFault::Dispatch || failure.fault == SdkFault::Timeout;
    if transient && attempt < S3_TRANSIENT_MAX_RETRIES {
        proof {
            reveal_with_fuel(transient_delay, 2);
        }
        let delay_secs: u64 = if attempt == 0 {
            1
        } else {
            2
        };
        return AfterFailure::Again { attempt: attempt + 1, delay_secs };
    }
    AfterFailure::GiveUp(ServiceError::of_aws_s3_client(cat2(report, failure.shown.as_str())))
}

/// Decides what follows a failed attempt at an operation.
pub fn with_transient_retry(operation: &str, attempt: u32, failure: &SdkFailure) -> (next:
    AfterFailure)
    ensures
        follows_failure(next, "S3 "@ + operation@ + " failed: "@, attempt, failure),
{
    let report = cat3("S3 ", operation, " failed: ");
    after_failure(report.as_str(), attempt, failure)
}

/// Decides what follows a failed attempt at retrieving the head of a content.
pub fn head_object_failed(content_uri: &str, attempt: u32, failure: &SdkFailure) -> (next:
    AfterFailure)
    ensures
        follows_failure(
            next,
            "S3 HeadObject failed for ["@ + content_uri@ + "]: "@,
            attempt,
            failure,
        ),
{
    let report = cat3("S3 HeadObject failed for [", content_uri, "]: ");
    after_failure(report.as_str(), attempt, failure)
}

/// The last attempt that is made, from the given one on, when the attempts would end as given:
/// with a fault, or without one.
pub open spec fn last_attempt(attempt: u32, ends: spec_fn(u32) -> Option<SdkFault>) -> u32
    decreases S3_TRANSIENT_MAX_RETRIES - attempt,
{
    if attempt < S3_TRANSIENT_MAX_RETRIES && (ends(attempt) matches Some(fault) && tries_again(
        fault,
        attempt,
    )) {
        last_attempt((attempt + 1) as u32, ends)
    } else {
        attempt
    }
}

/// A request is sent at most three times. Every attempt but the last ends with a failure of the
/// connection; the last one succeeds, or fails in another way, or is the third.
pub proof fn law_attempts_are_bounded(ends: spec_fn(u32) -> Option<SdkFault>)
    ensures
        last_attempt(0, ends) <= S3_TRANSIENT_MAX_RETRIES,
        forall|i: u32|
            i < last_attempt(0, ends) ==> (#[trigger] ends(i) matches Some(fault)
                && transient_fault(fault)),
        ends(last_attempt(0, ends)) matches Some(fault) ==> !transient_fault(fault)
            || last_attempt(0, ends) == S3_TRANSIENT_MAX_RETRIES,
{
    reveal_with_fuel(last_attempt, 4);
    assert forall|i: u32| i < last_attempt(0, ends) implies (#[trigger] ends(i) matches Some(fault)
        && transient_fault(fault)) by {
        assert(i == 0 || i == 1);
    }
}

/// A failure that is not one of the connection is final.
pub proof fn law_other_faults_are_final(attempt: u32)
    ensures
        !tries_again(SdkFault::Other, attempt),
{
}

/// What the head of an object says of it; what is missing is empty or zero.
pub open spec fn described_object(
    content_type: Option<Seq<char>>,
    content_length: Option<i64>,
) -> HeadInfoView {
    HeadInfoView {
        mime_type: match content_type {
            Some(mime_type) => mime_type,
            None => ""@,
        },
        size: match content_length {
            Some(size) => size as u64,
            None => 0,
        },
        filename: None,
    }
}

/// What the head of an object says of it.
pub fn describe_object(content_type: Option<String>, content_length: Option<i64>) -> (info:
    ContentHeadInfo)
    ensures
        info.deep_view() == described_object(content_type.deep_view(), content_length),
{
    let size: u64 = match content_length {
        Some(size) => #[verifier::truncate] (size as u64),
        None => 0,
    };
    let mime_type = match content_type {
        Some(mime_type) => mime_type,
        None => "".to_string(),
    };
    ContentHeadInfo { mime_type, size, filename: None }
}

/// A content that is being uploaded. What has come in is held until everything has, since every
/// request to the address replaces what is stored there.
#[derive(Debug)]
pub struct UploadStream {
    pub upload_url: String,
    pub content_uri: String,
    pub mime_type: String,
    pub tagging: Option<String>,
    pub buffer: Vec<u8>,
}

pub struct UploadStreamView {
    pub upload_url: Seq<char>,
    pub content_uri: Seq<char>,
    pub mime_type: Seq<char>,
    pub tagging: Option<Seq<char>>,
    pub buffer: Seq<u8>,
}

impl DeepView for UploadStream {
    type V = UploadStreamView;

    open spec fn deep_view(&self) -> UploadStreamView {
        UploadStreamView {
            upload_url: self.upload_url@,
            content_uri: self.content_uri@,
            mime_type: self.mime_type@,
            tagging: self.tagging.deep_view(),
            buffer: self.buffer@,
        }
    }
}

/// The request that uploads bytes.
pub open spec fn put_request(
    upload_url: Seq<char>,
    mime_type: Seq<char>,
    tagging: Option<Seq<char>>,
    bytes: Seq<u8>,
) -> RequestView {
    with_tagging(
        with_header(
            RequestView {
                payload: PayloadView::Bytes(bytes),
                ..bare_request(Method::Put, upload_url)
            },
            "content-type"@,
            mime_type,
        ),
        tagging,
    )
}

/// The upload after more bytes have come in.
pub open spec fn with_bytes(stream: UploadStreamView, bytes: Seq<u8>) -> UploadStreamView {
    UploadStreamView { buffer: stream.buffer + bytes, ..stream }
}

/// The request that uploads everything that has come in.
pub open spec fn upload_request(stream: UploadStreamView) -> RequestView {
    put_request(stream.upload_url, stream.mime_type, stream.tagging, stream.buffer)
}

impl UploadStream {
    /// Takes in bytes.
    pub fn receive(&mut self, bytes: &Vec<u8>)
        requires
            old(self).buffer@.len() + bytes@.len() <= usize::MAX,
        ensures
            final(self).deep_view() == with_bytes(old(self).deep_view(), bytes@),
    {
        let mut buffer: Vec<u8> = Vec::new();
        std::mem::swap(&mut buffer, &mut self.buffer);
        let mut i: usize = 0;
        let ghost before = buffer@;
        assert(before + bytes@.take(0) =~= before);
        while i < bytes.len()
            invariant
                i <= bytes@.len(),
                buffer@ == before + bytes@.take(i as int),
            decreases bytes@.len() - i,
        {
            buffer.push(bytes[i]);
            i += 1;
            assert(buffer@ =~= before + bytes@.take(i as int));
        }
        assert(bytes@.take(i as int) =~= bytes@);
        self.buffer = buffer;
    }

    /// The one request that uploads the content, once everything has come in.
    pub fn finish(self) -> (request: HttpRequest)
        ensures
            request.deep_view() == upload_request(self.deep_view()),
    {
        let bare = HttpRequest::new(Method::Put, self.upload_url);
        let request = HttpRequest { payload: Payload::Bytes(self.buffer), ..bare };
        let request = request.header("content-type", self.mime_type.as_str());
        match &self.tagging {
            Some(tagging) => AwsS3Service::add_tagging_header(request, Some(tagging.as_str())),
            None => AwsS3Service::add_tagging_header(request, None),
        }
    }
}

/// What goes wrong while a content is uploaded.
#[derive(Debug)]
pub enum UploadFault {
    /// The request for the content failed.
    Fetch(ErrorReport),
    /// The content broke off; why, as it is displayed.
    Receive(String),
    /// The request that uploads the content failed, or its answer has a status of failure.
    Send(ErrorReport),
}

/// The error for what went wrong.
pub open spec fn upload_fault_error(fault: UploadFault) -> ErrorView {
    match fault {
        UploadFault::Fetch(report) => ErrorView::ReqwestError(report.deep_view()),
        UploadFault::Receive(shown) => general_error(shown@),
        UploadFault::Send(report) => ErrorView::ReqwestError(report.deep_view()),
    }
}

/// What comes of an upload: the URI of the content, or the error for what went wrong.
pub open spec fn upload_outcome(
    content_uri: Seq<char>,
    transfer: Result<(), UploadFault>,
) -> Result<Seq<char>, ErrorView> {
    match transfer {
        Ok(_) => Ok(content_uri),
        Err(fault) => Err(upload_fault_error(fault)),
    }
}

/// Gives what comes of an upload, once the request that uploads the content has been answered or
/// something has gone wrong before.
pub fn content_uploaded(content_uri: String, transfer: Result<(), UploadFault>) -> (uri: Result<
    String,
    ServiceError,
>)
    ensures
        outcome(uri) == upload_outcome(content_uri@, transfer),
{
    match transfer {
        Ok(_) => Ok(content_uri),
        Err(UploadFault::Fetch(report)) => Err(ServiceError::ReqwestError(report)),
        Err(UploadFault::Receive(shown)) => Err(ServiceError::of_message(shown)),
        Err(UploadFault::Send(report)) => Err(ServiceError::ReqwestError(report)),
    }
}

/// The upload after bytes have come in piece by piece.
pub open spec fn after_pieces(stream: UploadStreamView, incoming: Seq<Seq<u8>>) -> UploadStreamView
    decreases incoming.len(),
{
    if incoming.len() == 0 {
        stream
    } else {
        with_bytes(after_pieces(stream, incoming.drop_last()), incoming.last())
    }
}

/// The bytes of several pieces, one after the other.
pub open spec fn joined(pieces: Seq<Seq<u8>>) -> Seq<u8>
    decreases pieces.len(),
{
    if pieces.len() == 0 {
        Seq::empty()
    } else {
        joined(pieces.drop_last()) + pieces.last()
    }
}

/// However a content comes in, the one request that uploads it carries all of it, in order, also
/// where it is empty, and goes to the address of the upload.
pub proof fn law_upload_is_complete(stream: UploadStreamView, incoming: Seq<Seq<u8>>)
    requires
        stream.buffer.len() == 0,
    ensures
        upload_request(after_pieces(stream, incoming)) == put_request(
            stream.upload_url,
            stream.mime_type,
            stream.tagging,
            joined(incoming),
        ),
        upload_request(after_pieces(stream, incoming)).payload == PayloadView::Bytes(
            joined(incoming),
        ),
        upload_request(after_pieces(stream, incoming)).url == stream.upload_url,
        after_pieces(stream, incoming).content_uri == stream.content_uri,
    decreases incoming.len(),
{
    lemma_after_pieces(stream, incoming);
    assert(stream.buffer + joined(incoming) =~= joined(incoming));
}

proof fn lemma_after_pieces(stream: UploadStreamView, incoming: Seq<Seq<u8>>)
    ensures
        after_pieces(stream, incoming) == with_bytes(stream, joined(incoming)),
    decreases incoming.len(),
{
    if incoming.len() > 0 {
        lemma_after_pieces(stream, incoming.drop_last());
        assert(stream.buffer + joined(incoming.drop_last()) + incoming.last() =~= stream.buffer
            + joined(incoming));
    } else {
        assert(stream.buffer + joined(incoming) =~= stream.buffer);
    }
}

} // verus!
