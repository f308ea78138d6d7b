//! Errors of the provider.

use vstd::prelude::*;

use crate::text::opt_view;

verus! {

/// What went wrong.
#[derive(Debug, PartialEq, Eq)]
pub enum ErrorDetails {
    ApiKeyMissing { provider_name: String },
    Config { message: String },
    InferenceClient {
        message: String,
        status_code: Option<u16>,
        provider_type: String,
        raw_request: Option<String>,
        raw_response: Option<String>,
    },
    InferenceServer {
        message: String,
        provider_type: String,
        raw_request: Option<String>,
        raw_response: Option<String>,
    },
    InvalidBaseUrl { message: String },
    InvalidMessage { message: String },
    Serialization { message: String },
    ToolNotFound { name: String },
    UnsupportedModelProviderForBatchInference { provider_type: String },
}

/// The model of [`ErrorDetails`] and of [`Error`]: texts as sequences of characters.
pub enum ErrorView {
    ApiKeyMissing { provider_name: Seq<char> },
    Config { message: Seq<char> },
    InferenceClient {
        message: Seq<char>,
        status_code: Option<u16>,
        provider_type: Seq<char>,
        raw_request: Option<Seq<char>>,
        raw_response: Option<Seq<char>>,
    },
    InferenceServer {
        message: Seq<char>,
        provider_type: Seq<char>,
        raw_request: Option<Seq<char>>,
        raw_response: Option<Seq<char>>,
    },
    InvalidBaseUrl { message: Seq<char> },
    InvalidMessage { message: Seq<char> },
    Serialization { message: Seq<char> },
    ToolNotFound { name: Seq<char> },
    UnsupportedModelProviderForBatchInference { provider_type: Seq<char> },
}

impl View for ErrorDetails {
    type V = ErrorView;

    open spec fn view(&self) -> ErrorView {
        match self {
            ErrorDetails::ApiKeyMissing { provider_name } => ErrorView::ApiKeyMissing {
                provider_name: provider_name@,
            },
            ErrorDetails::Config { message } => ErrorView::Config { message: message@ },
            ErrorDetails::InferenceClient {
                message,
                status_code,
                provider_type,
                raw_request,
                raw_response,
            } => ErrorView::InferenceClient {
                message: message@,
                status_code: *status_code,
                provider_type: provider_type@,
                raw_request: opt_view(*raw_request),
                raw_response: opt_view(*raw_response),
            },
            ErrorDetails::InferenceServer { message, provider_type, raw_request, raw_response } =>
            ErrorView::InferenceServer {
                message: message@,
                provider_type: provider_type@,
                raw_request: opt_view(*raw_request),
                raw_response: opt_view(*raw_response),
            },
            ErrorDetails::InvalidBaseUrl { message } => ErrorView::InvalidBaseUrl {
                message: message@,
            },
            ErrorDetails::InvalidMessage { message } => ErrorView::InvalidMessage {
                message: message@,
            },
            ErrorDetails::Serialization { message } => ErrorView::Serialization {
                message: message@,
            },
            ErrorDetails::ToolNotFound { name } => ErrorView::ToolNotFound { name: name@ },
            ErrorDetails::UnsupportedModelProviderForBatchInference { provider_type } =>
            ErrorView::UnsupportedModelProviderForBatchInference { provider_type: provider_type@ },
        }
    }
}

/// An error, which carries its details.
#[derive(Debug, PartialEq, Eq)]
pub struct Error {
    pub details: ErrorDetails,
}

impl View for Error {
    type V = ErrorView;

    open spec fn view(&self) -> ErrorView {
        self.details@
    }
}

impl Error {
    /// The error with these details.
    pub fn new(details: ErrorDetails) -> (error: Self)
        ensures
            error.details == details,
    {
        Error { details }
    }

    /// The details, taken out of the error.
    pub fn get_owned_details(self) -> (details: ErrorDetails)
        ensures
            details == self.details,
    {
        self.details
    }
}

/// Every word of an error is seen, in its place.
pub proof fn law_errors_are_seen_whole(details: ErrorDetails, error: Error)
    ensures
        error@ == error.details@,
        match details {
            ErrorDetails::ApiKeyMissing { provider_name } => details@
                == ErrorView::ApiKeyMissing { provider_name: provider_name@ },
            ErrorDetails::Config { message } => details@ == ErrorView::Config { message: message@ },
            ErrorDetails::InferenceClient {
                message,
                status_code,
                provider_type,
                raw_request,
                raw_response,
            } => details@ == ErrorView::InferenceClient {
                message: message@,
                status_code,
                provider_type: provider_type@,
                raw_request: opt_view(raw_request),
                raw_response: opt_view(raw_response),
            },
            ErrorDetails::InferenceServer { message, provider_type, raw_request, raw_response } =>
            details@ == ErrorView::InferenceServer {
                message: message@,
                provider_type: provider_type@,
                raw_request: opt_view(raw_request),
                raw_response: opt_view(raw_response),
            },
            ErrorDetails::InvalidBaseUrl { message } => details@
                == ErrorView::InvalidBaseUrl { message: message@ },
            ErrorDetails::InvalidMessage { message } => details@
                == ErrorView::InvalidMessage { message: message@ },
            ErrorDetails::Serialization { message } => details@
                == ErrorView::Serialization { message: message@ },
            ErrorDetails::ToolNotFound { name } => details@
                == ErrorView::ToolNotFound { name: name@ },
            ErrorDetails::UnsupportedModelProviderForBatchInference { provider_type } => details@
                == ErrorView::UnsupportedModelProviderForBatchInference {
                provider_type: provider_type@,
            },
        },
{
}

} // verus!
