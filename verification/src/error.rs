//! What can go wrong, as callers of the services see it.
use vstd::prelude::*;

verus! {

/// An error in words, together with the errors that led to it, the nearest first.
#[derive(Debug)]
pub struct ErrorReport {
    pub message: String,
    pub sources: Vec<String>,
}

pub struct ReportView {
    pub message: Seq<char>,
    pub sources: Seq<Seq<char>>,
}

impl DeepView for ErrorReport {
    type V = ReportView;

    open spec fn deep_view(&self) -> ReportView {
        ReportView { message: self.message@, sources: self.sources.deep_view() }
    }
}

/// What a general failure goes back to. How a failure of an identity provider or of the S3 client
/// is put into words is left to whoever displays it.
#[derive(Debug)]
pub enum GeneralCause {
    /// A failure that is described in full.
    Plain(String),
    /// A failure that an identity provider reported.
    AuthProvider(String),
    /// A failure that the S3 client reported.
    AwsS3Client(String),
}

pub enum CauseView {
    Plain(Seq<char>),
    AuthProvider(Seq<char>),
    AwsS3Client(Seq<char>),
}

impl DeepView for GeneralCause {
    type V = CauseView;

    open spec fn deep_view(&self) -> CauseView {
        match self {
            GeneralCause::Plain(s) => CauseView::Plain(s@),
            GeneralCause::AuthProvider(s) => CauseView::AuthProvider(s@),
            GeneralCause::AwsS3Client(s) => CauseView::AwsS3Client(s@),
        }
    }
}

/// The error of a service operation.
#[derive(Debug)]
pub enum ServiceError {
    /// A failure that is nothing more specific.
    GeneralError(GeneralCause),
    NotFoundError(String),
    InvalidRequestParameters(String),
    /// The operation may succeed when it is tried again.
    NotReadyError(String),
    AlreadyExistsError(String),
    ParseError(String),
    FileSystemError(String),
    ForbiddenError,
    /// An HTTP exchange failed.
    ReqwestError(ErrorReport),
    /// A call of another service failed.
    ClientCallError(String),
}

pub enum ErrorView {
    GeneralError(CauseView),
    NotFoundError(Seq<char>),
    InvalidRequestParameters(Seq<char>),
    NotReadyError(Seq<char>),
    AlreadyExistsError(Seq<char>),
    ParseError(Seq<char>),
    FileSystemError(Seq<char>),
    ForbiddenError,
    ReqwestError(ReportView),
    ClientCallError(Seq<char>),
}

impl DeepView for ServiceError {
    type V = ErrorView;

    open spec fn deep_view(&self) -> ErrorView {
        match self {
            ServiceError::GeneralError(cause) => ErrorView::GeneralError(cause.deep_view()),
            ServiceError::NotFoundError(s) => ErrorView::NotFoundError(s@),
            ServiceError::InvalidRequestParameters(s) => ErrorView::InvalidRequestParameters(s@),
            ServiceError::NotReadyError(s) => ErrorView::NotReadyError(s@),
            ServiceError::AlreadyExistsError(s) => ErrorView::AlreadyExistsError(s@),
            ServiceError::ParseError(s) => ErrorView::ParseError(s@),
            ServiceError::FileSystemError(s) => ErrorView::FileSystemError(s@),
            ServiceError::ForbiddenError => ErrorView::ForbiddenError,
            ServiceError::ReqwestError(report) => ErrorView::ReqwestError(report.deep_view()),
            ServiceError::ClientCallError(s) => ErrorView::ClientCallError(s@),
        }
    }
}

/// The general error with a message.
pub open spec fn general_error(message: Seq<char>) -> ErrorView {
    ErrorView::GeneralError(CauseView::Plain(message))
}

/// The general error for what an identity provider reported.
pub open spec fn auth_provider_error(message: Seq<char>) -> ErrorView {
    ErrorView::GeneralError(CauseView::AuthProvider(message))
}

/// The general error for what the S3 client reported.
pub open spec fn aws_s3_client_error(message: Seq<char>) -> ErrorView {
    ErrorView::GeneralError(CauseView::AwsS3Client(message))
}

/// What the result of an operation says.
pub open spec fn outcome<T: DeepView>(result: Result<T, ServiceError>) -> Result<
    <T as DeepView>::V,
    ErrorView,
> {
    match result {
        Ok(value) => Ok(value.deep_view()),
        Err(error) => Err(error.deep_view()),
    }
}

/// A call of an operation fails since the operation is not offered.
pub open spec fn forbidden<T>(result: Result<T, ServiceError>) -> bool {
    result matches Err(error) && error.deep_view() == ErrorView::ForbiddenError
}

/// Whether trying again may help.
pub open spec fn retryable(error: ErrorView) -> bool {
    error is NotReadyError
}

impl ServiceError {
    /// The general error with a message.
    pub fn of_message(message: String) -> (error: Self)
        ensures
            error.deep_view() == general_error(message@),
    {
        ServiceError::GeneralError(GeneralCause::Plain(message))
    }

    /// The general error for what an identity provider reported.
    pub fn of_auth_provider(message: String) -> (error: Self)
        ensures
            error.deep_view() == auth_provider_error(message@),
    {
        ServiceError::GeneralError(GeneralCause::AuthProvider(message))
    }

    /// The general error for what the S3 client reported.
    pub fn of_aws_s3_client(message: String) -> (error: Self)
        ensures
            error.deep_view() == aws_s3_client_error(message@),
    {
        ServiceError::GeneralError(GeneralCause::AwsS3Client(message))
    }

    /// Whether trying the operation again may help.
    pub fn is_retryable(&self) -> (again: bool)
        ensures
            again == retryable(self.deep_view()),
    {
        match self {
            ServiceError::NotReadyError(_) => true,
            _ => false,
        }
    }
}

/// The general error with a message.
pub fn general<T>(message: &str) -> (result: Result<T, ServiceError>)
    ensures
        result matches Err(error) && error.deep_view() == general_error(message@),
{
    Err(ServiceError::of_message(message.to_string()))
}

/// The error for parameters that cannot be accepted.
pub fn invalid<T>(message: &str) -> (result: Result<T, ServiceError>)
    ensures
        result matches Err(error) && error.deep_view() == ErrorView::InvalidRequestParameters(
            message@,
        ),
{
    Err(ServiceError::InvalidRequestParameters(message.to_string()))
}

/// Only an operation that is not ready is worth another try.
pub proof fn law_only_unready_operations_are_tried_again(error: &ServiceError, again: bool)
    requires
        call_ensures(ServiceError::is_retryable, (error,), again),
    ensures
        again <==> (error matches ServiceError::NotReadyError(_)),
{
}

} // verus!
