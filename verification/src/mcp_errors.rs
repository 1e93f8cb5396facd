//! The errors that a tool call is answered with.

use vstd::prelude::*;

use crate::atlassian::error::{AtlassianError, ErrorView};
use crate::text;
use crate::text::{concat, concat3, decimal_text};

verus! {

/// The error of a service behind the server.
pub type UpstreamError = AtlassianError;

/// Who is at fault: the caller's parameters, or the server and what is behind it.
#[derive(Debug, Clone, Copy, PartialEq, Eq, Structural)]
pub enum ErrorCode {
    InvalidParams,
    InternalError,
}

/// The error that a tool call is answered with.
#[derive(Debug)]
pub struct ErrorData {
    pub code: ErrorCode,
    pub message: String,
}

/// What such an error stands for.
#[verifier::ext_equal]
pub struct FailureView {
    pub code: ErrorCode,
    pub message: Seq<char>,
}

impl View for ErrorData {
    type V = FailureView;

    open spec fn view(&self) -> FailureView {
        FailureView { code: self.code, message: self.message@ }
    }
}

impl DeepView for ErrorData {
    type V = FailureView;

    open spec fn deep_view(&self) -> FailureView {
        self@
    }
}

/// The refusal of a call for its parameters.
pub open spec fn invalid_params(message: Seq<char>) -> FailureView {
    FailureView { code: ErrorCode::InvalidParams, message }
}

/// The failure of a call that was accepted.
pub open spec fn internal_error(message: Seq<char>) -> FailureView {
    FailureView { code: ErrorCode::InternalError, message }
}

impl ErrorData {
    /// The refusal of a call for its parameters.
    pub fn invalid_params(message: String) -> (error: ErrorData)
        ensures
            error@ == invalid_params(message@),
    {
        ErrorData { code: ErrorCode::InvalidParams, message }
    }

    /// The failure of a call that was accepted.
    pub fn internal_error(message: String) -> (error: ErrorData)
        ensures
            error@ == internal_error(message@),
    {
        ErrorData { code: ErrorCode::InternalError, message }
    }
}

/// What a Jira error is answered with: the caller is at fault for refused input only.
pub open spec fn jira_failure(error: ErrorView) -> FailureView {
    match error {
        ErrorView::InvalidInput { .. } => invalid_params(error.shown()),
        _ => internal_error(error.shown()),
    }
}

/// What a Jira error is answered with.
pub fn jira_error(error: AtlassianError) -> (answer: ErrorData)
    ensures
        answer@ == jira_failure(error@),
{
    let message = error.shown();
    match error {
        AtlassianError::InvalidInput { .. } => ErrorData::invalid_params(message),
        _ => ErrorData::internal_error(message),
    }
}

/// What an upstream error's answer says of its category, before the error itself.
pub open spec fn category_label(error: ErrorView) -> Seq<char> {
    match error {
        ErrorView::InvalidInput { .. } => "Upstream error category=invalid_input: "@,
        ErrorView::InvalidBaseUrl { .. } => "Upstream error category=invalid_base_url: "@,
        ErrorView::HttpStatus { status, .. } => "Upstream error category=http_status status="@
            + text::decimal(status as nat) + ": "@,
        ErrorView::Transport { .. } => "Upstream error category=transport: "@,
        ErrorView::JsonDecode { .. } => "Upstream error category=json_decode: "@,
        ErrorView::UnexpectedShape { .. } => "Upstream error category=unexpected_shape: "@,
    }
}

/// What an upstream error is answered with, once its text has been redacted: the caller
/// is at fault for refused input and for the base URL.
pub open spec fn upstream_failure(error: ErrorView, redacted: Seq<char>) -> FailureView {
    let message = category_label(error) + redacted;
    match error {
        ErrorView::InvalidInput { .. } | ErrorView::InvalidBaseUrl { .. } => invalid_params(
            message,
        ),
        _ => internal_error(message),
    }
}

/// What an upstream error is answered with, once its text has been redacted.
pub fn upstream_error_message(error: &UpstreamError, redacted: &str) -> (message: String)
    ensures
        message@ == category_label(error@) + redacted@,
{
    match error {
        AtlassianError::InvalidInput { .. } => concat(
            "Upstream error category=invalid_input: ",
            redacted,
        ),
        AtlassianError::InvalidBaseUrl { .. } => concat(
            "Upstream error category=invalid_base_url: ",
            redacted,
        ),
        AtlassianError::HttpStatus { status, .. } => {
            let head = concat3(
                "Upstream error category=http_status status=",
                decimal_text(*status as u64).as_str(),
                ": ",
            );
            concat(head.as_str(), redacted)
        },
        AtlassianError::Transport { .. } => concat(
            "Upstream error category=transport: ",
            redacted,
        ),
        AtlassianError::JsonDecode { .. } => concat(
            "Upstream error category=json_decode: ",
            redacted,
        ),
        AtlassianError::UnexpectedShape { .. } => concat(
            "Upstream error category=unexpected_shape: ",
            redacted,
        ),
    }
}

/// What an upstream error is answered with. `redact_text` takes out of the error's text
/// what must not be shown.
pub fn upstream_error<F: Fn(&str) -> String>(error: UpstreamError, redact_text: F) -> (answer:
    ErrorData)
    requires
        forall|s: &str| call_requires(redact_text, (s,)),
    ensures
        exists|s: &str, redacted: String|
            s@ == error@.shown() && #[trigger] call_ensures(redact_text, (s,), redacted)
                && answer@ == upstream_failure(error@, redacted@),
{
    let shown = error.shown();
    let redacted = redact_text(shown.as_str());
    let message = upstream_error_message(&error, redacted.as_str());
    match error {
        AtlassianError::InvalidInput { .. } | AtlassianError::InvalidBaseUrl { .. } => {
            ErrorData::invalid_params(message)
        },
        AtlassianError::HttpStatus { .. }
        | AtlassianError::Transport { .. }
        | AtlassianError::JsonDecode { .. }
        | AtlassianError::UnexpectedShape { .. } => ErrorData::internal_error(message),
    }
}

/// Input that Jira's checks refuse is the caller's fault, and nothing else is.
pub proof fn law_refused_input_is_the_callers_fault(error: ErrorView)
    ensures
        (jira_failure(error).code == ErrorCode::InvalidParams) == (error is InvalidInput),
        jira_failure(error).message == error.shown(),
{
}

} // verus!
