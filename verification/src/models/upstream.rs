//! One exchange with the upstream API as this library sees it: the request
//! it asks the caller to send, and what the caller says came back.
//!
//! The library never touches the network. A lookup is a small state
//! machine: called without a reply it names the request to send; called
//! with the reply it gives the lookup's result.

use crate::models::error::{ApiError, ApiErrorView};
use crate::models::player::{ApiErrorResponse, Player};
use vstd::prelude::*;

verus! {

/// A `GET` request to the upstream API.
#[derive(Debug, Clone, PartialEq)]
pub struct UpstreamRequest {
    /// The address to fetch.
    pub url: String,
    /// The value of the `Authorization` header.
    pub authorization: String,
}

/// An [`UpstreamRequest`] with its texts as character sequences.
pub struct UpstreamRequestView {
    pub url: Seq<char>,
    pub authorization: Seq<char>,
}

impl View for UpstreamRequest {
    type V = UpstreamRequestView;

    open spec fn view(&self) -> UpstreamRequestView {
        UpstreamRequestView { url: self.url@, authorization: self.authorization@ }
    }
}

/// What became of a request that was sent.
#[derive(Debug, Clone, PartialEq)]
pub enum UpstreamReply {
    /// No answer arrived (name resolution, connection, timeout); holds the
    /// transport's description of the failure.
    Unreachable(String),
    /// A success status arrived and the body decoded as a player profile.
    /// Whether its tag is empty has not been looked at yet.
    Profile(Player),
    /// A success status arrived but the body was no player profile; holds
    /// the decoder's description of what is wrong with it.
    Malformed(String),
    /// Any other status arrived.
    Rejected {
        /// The status code that arrived.
        status: u16,
        /// The body as text, or `None` where it could not be read.
        body: Option<String>,
        /// The body decoded as an error envelope, or `None` where it is none.
        envelope: Option<ApiErrorResponse>,
    },
}

/// Where a lookup stands.
#[derive(Debug, PartialEq)]
pub enum Lookup {
    /// The caller is to send this request and come back with the reply.
    Ask(UpstreamRequest),
    /// The lookup is over, with this result.
    Done(Result<Player, ApiError>),
}

/// A [`Lookup`] with its texts as character sequences.
pub enum LookupView {
    Ask(UpstreamRequestView),
    Done(Result<Player, ApiErrorView>),
}

/// A lookup's result with the error's texts as character sequences.
pub open spec fn result_view(result: Result<Player, ApiError>) -> Result<Player, ApiErrorView> {
    match result {
        Ok(player) => Ok(player),
        Err(error) => Err(error@),
    }
}

impl View for Lookup {
    type V = LookupView;

    open spec fn view(&self) -> LookupView {
        match self {
            Lookup::Ask(request) => LookupView::Ask(request@),
            Lookup::Done(result) => LookupView::Done(result_view(*result)),
        }
    }
}

/// Whether a status code reports success: 200 to 299.
pub open spec fn is_success_status(status: u16) -> bool {
    200 <= status <= 299
}

/// Tells whether the body that came with a status code is to be read as a
/// player profile (`true`) or as an error (`false`).
pub fn is_success(status: u16) -> (success: bool)
    ensures
        success == is_success_status(status),
{
    200 <= status && status <= 299
}

} // verus!
