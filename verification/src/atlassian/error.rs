//! What goes wrong between the library and an Atlassian service.

use vstd::prelude::*;

use crate::text::{concat, concat3, decimal, decimal_text};

verus! {

/// An error of a request, from the check of its arguments to the reading of the reply.
#[derive(Debug, PartialEq)]
pub enum AtlassianError {
    /// The configured base URL is no URL.
    InvalidBaseUrl { message: String },
    /// The caller's arguments were refused; nothing was sent.
    InvalidInput { message: String },
    /// The service answered with a status other than success.
    HttpStatus { status: u16, message: String },
    /// The request did not go through.
    Transport { message: String },
    /// The reply is no JSON.
    JsonDecode { message: String },
    /// The reply is JSON of another shape than expected.
    UnexpectedShape { message: String },
}

/// What an error stands for.
#[verifier::ext_equal]
pub enum ErrorView {
    InvalidBaseUrl { message: Seq<char> },
    InvalidInput { message: Seq<char> },
    HttpStatus { status: u16, message: Seq<char> },
    Transport { message: Seq<char> },
    JsonDecode { message: Seq<char> },
    UnexpectedShape { message: Seq<char> },
}

impl View for AtlassianError {
    type V = ErrorView;

    open spec fn view(&self) -> ErrorView {
        match self {
            AtlassianError::InvalidBaseUrl { message } => ErrorView::InvalidBaseUrl {
                message: message@,
            },
            AtlassianError::InvalidInput { message } => ErrorView::InvalidInput {
                message: message@,
            },
            AtlassianError::HttpStatus { status, message } => ErrorView::HttpStatus {
                status: *status,
                message: message@,
            },
            AtlassianError::Transport { message } => ErrorView::Transport { message: message@ },
            AtlassianError::JsonDecode { message } => ErrorView::JsonDecode { message: message@ },
            AtlassianError::UnexpectedShape { message } => ErrorView::UnexpectedShape {
                message: message@,
            },
        }
    }
}

impl DeepView for AtlassianError {
    type V = ErrorView;

    open spec fn deep_view(&self) -> ErrorView {
        self@
    }
}

impl ErrorView {
    /// The error as it is shown.
    pub open spec fn shown(self) -> Seq<char> {
        match self {
            ErrorView::InvalidBaseUrl { message } => "invalid base URL: "@ + message,
            ErrorView::InvalidInput { message } => "invalid input: "@ + message,
            ErrorView::HttpStatus { status, message } => "HTTP "@ + decimal(status as nat) + ": "@
                + message,
            ErrorView::Transport { message } => "transport error: "@ + message,
            ErrorView::JsonDecode { message } => "JSON decode error: "@ + message,
            ErrorView::UnexpectedShape { message } => "unexpected response shape: "@ + message,
        }
    }
}

/// The refusal of an argument.
pub open spec fn invalid_input(message: Seq<char>) -> ErrorView {
    ErrorView::InvalidInput { message }
}

/// The refusal of a reply's shape.
pub open spec fn unexpected_shape(message: Seq<char>) -> ErrorView {
    ErrorView::UnexpectedShape { message }
}

impl AtlassianError {
    /// The refusal of an argument.
    pub fn invalid_input(message: String) -> (error: AtlassianError)
        ensures
            error@ == invalid_input(message@),
    {
        AtlassianError::InvalidInput { message }
    }

    /// The refusal of a reply's shape.
    pub fn unexpected_shape(message: String) -> (error: AtlassianError)
        ensures
            error@ == unexpected_shape(message@),
    {
        AtlassianError::UnexpectedShape { message }
    }

    /// The error as it is shown.
    pub fn shown(&self) -> (text: String)
        ensures
            text@ == self@.shown(),
    {
        match self {
            AtlassianError::InvalidBaseUrl { message } => concat(
                "invalid base URL: ",
                message.as_str(),
            ),
            AtlassianError::InvalidInput { message } => concat("invalid input: ", message.as_str()),
            AtlassianError::HttpStatus { status, message } => {
                let head = concat3("HTTP ", decimal_text(*status as u64).as_str(), ": ");
                concat(head.as_str(), message.as_str())
            },
            AtlassianError::Transport { message } => concat("transport error: ", message.as_str()),
            AtlassianError::JsonDecode { message } => concat(
                "JSON decode error: ",
                message.as_str(),
            ),
            AtlassianError::UnexpectedShape { message } => concat(
                "unexpected response shape: ",
                message.as_str(),
            ),
        }
    }
}

} // verus!
