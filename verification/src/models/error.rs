//! The ways a player lookup can fail, and the text each failure is shown as.

use vstd::prelude::*;
use vstd::string::StringExecFns;

verus! {

/// Why a player lookup failed.
#[derive(Debug, Clone, PartialEq)]
pub enum ApiError {
    /// The upstream API could not be reached; holds the transport's description.
    FetchError(String),
    /// The player tag was refused before anything was sent.
    InvalidPlayerTag(String),
    /// The upstream API answered with an error of its own.
    ClashApiError { reason: String, message: String },
    /// A body could not be decoded locally.
    InternalError(String),
}

/// An [`ApiError`] with its texts as character sequences.
pub enum ApiErrorView {
    FetchError(Seq<char>),
    InvalidPlayerTag(Seq<char>),
    ClashApiError { reason: Seq<char>, message: Seq<char> },
    InternalError(Seq<char>),
}

impl ApiErrorView {
    /// The line this error is displayed as.
    pub open spec fn text(self) -> Seq<char> {
        match self {
            ApiErrorView::FetchError(detail) => "Failed to fetch player data: "@ + detail,
            ApiErrorView::InvalidPlayerTag(detail) => "Invalid player tag: "@ + detail,
            ApiErrorView::ClashApiError { reason, message } => "API error: "@ + reason + " - "@
                + message,
            ApiErrorView::InternalError(detail) => "Internal server error: "@ + detail,
        }
    }
}

impl View for ApiError {
    type V = ApiErrorView;

    open spec fn view(&self) -> ApiErrorView {
        match self {
            ApiError::FetchError(detail) => ApiErrorView::FetchError(detail@),
            ApiError::InvalidPlayerTag(detail) => ApiErrorView::InvalidPlayerTag(detail@),
            ApiError::ClashApiError { reason, message } => ApiErrorView::ClashApiError {
                reason: reason@,
                message: message@,
            },
            ApiError::InternalError(detail) => ApiErrorView::InternalError(detail@),
        }
    }
}

impl ApiError {
    /// The line this error is displayed as: the kind's heading, then its detail.
    pub fn to_string(&self) -> (line: String)
        ensures
            line@ == self@.text(),
    {
        match self {
            ApiError::FetchError(detail) => {
                String::from_str("Failed to fetch player data: ").concat(detail.as_str())
            },
            ApiError::InvalidPlayerTag(detail) => {
                String::from_str("Invalid player tag: ").concat(detail.as_str())
            },
            ApiError::ClashApiError { reason, message } => {
                String::from_str("API error: ").concat(reason.as_str()).concat(" - ").concat(
                    message.as_str(),
                )
            },
            ApiError::InternalError(detail) => {
                String::from_str("Internal server error: ").concat(detail.as_str())
            },
        }
    }
}

} // verus!
