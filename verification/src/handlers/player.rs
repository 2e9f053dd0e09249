//! `GET /api/player/{player_tag}`: the player's profile, or why there is
//! none.

use crate::config::settings::ClashApiSettingsView;
use crate::models::error::{ApiError, ApiErrorView};
use crate::models::player::{ApiErrorResponse, Player};
use crate::models::upstream::{
    result_view, Lookup, LookupView, UpstreamReply, UpstreamRequest, UpstreamRequestView,
};
use crate::repositories::clash_api_repository::player_request;
use crate::services::player_service::{service_step, tag_problem, PlayerService};
use vstd::prelude::*;
use vstd::string::StringExecFns;

verus! {

/// Status of a response that carries a profile.
pub const STATUS_OK: u16 = 200;

/// Status of a response to a request that was at fault.
pub const STATUS_BAD_REQUEST: u16 = 400;

/// Status of a response to a request that failed on the server's side.
pub const STATUS_INTERNAL_SERVER_ERROR: u16 = 500;

/// The JSON body of a response to a player lookup.
#[derive(Debug, Clone, PartialEq)]
pub enum PlayerBody {
    /// The profile itself.
    Profile(Player),
    /// The upstream API's own error, as the object `{reason, message}`.
    Upstream { reason: String, message: String },
    /// An error of this server, as the object `{error, message}`.
    Failure { error: String, message: String },
}

/// A [`PlayerBody`] with its texts as character sequences.
pub enum PlayerBodyView {
    Profile(Player),
    Upstream { reason: Seq<char>, message: Seq<char> },
    Failure { error: Seq<char>, message: Seq<char> },
}

impl View for PlayerBody {
    type V = PlayerBodyView;

    open spec fn view(&self) -> PlayerBodyView {
        match self {
            PlayerBody::Profile(player) => PlayerBodyView::Profile(*player),
            PlayerBody::Upstream { reason, message } => PlayerBodyView::Upstream {
                reason: reason@,
                message: message@,
            },
            PlayerBody::Failure { error, message } => PlayerBodyView::Failure {
                error: error@,
                message: message@,
            },
        }
    }
}

/// The response to a player lookup: a status code and a JSON body.
#[derive(Debug, Clone, PartialEq)]
pub struct PlayerResponse {
    pub status: u16,
    pub body: PlayerBody,
}

/// A [`PlayerResponse`] with its texts as character sequences.
pub struct PlayerResponseView {
    pub status: u16,
    pub body: PlayerBodyView,
}

impl View for PlayerResponse {
    type V = PlayerResponseView;

    open spec fn view(&self) -> PlayerResponseView {
        PlayerResponseView { status: self.status, body: self.body@ }
    }
}

/// What the handler wants done next.
#[derive(Debug, PartialEq)]
pub enum Handled {
    /// Send this request upstream and call the handler again with the reply.
    Ask(UpstreamRequest),
    /// Answer the client with this response.
    Respond(PlayerResponse),
}

/// A [`Handled`] with its texts as character sequences.
pub enum HandledView {
    Ask(UpstreamRequestView),
    Respond(PlayerResponseView),
}

impl View for Handled {
    type V = HandledView;

    open spec fn view(&self) -> HandledView {
        match self {
            Handled::Ask(request) => HandledView::Ask(request@),
            Handled::Respond(response) => HandledView::Respond(response@),
        }
    }
}

/// The response a lookup's result is answered with:
/// a profile with 200; an upstream error with 400 and its reason and
/// message; a refused tag with 400; anything else with 500 and the error's
/// display line.
pub open spec fn response_to(result: Result<Player, ApiErrorView>) -> PlayerResponseView {
    match result {
        Ok(player) => PlayerResponseView { status: STATUS_OK, body: PlayerBodyView::Profile(player) },
        Err(ApiErrorView::ClashApiError { reason, message }) => PlayerResponseView {
            status: STATUS_BAD_REQUEST,
            body: PlayerBodyView::Upstream { reason, message },
        },
        Err(ApiErrorView::InvalidPlayerTag(message)) => PlayerResponseView {
            status: STATUS_BAD_REQUEST,
            body: PlayerBodyView::Failure { error: "Invalid player tag"@, message },
        },
        Err(error) => PlayerResponseView {
            status: STATUS_INTERNAL_SERVER_ERROR,
            body: PlayerBodyView::Failure {
                error: "Failed to fetch player data"@,
                message: error.text(),
            },
        },
    }
}

/// What the handler wants done where the lookup stands so.
pub open spec fn handled(lookup: LookupView) -> HandledView {
    match lookup {
        LookupView::Ask(request) => HandledView::Ask(request),
        LookupView::Done(result) => HandledView::Respond(response_to(result)),
    }
}

/// Shapes the response to a lookup's result.
pub fn respond(result: Result<Player, ApiError>) -> (response: PlayerResponse)
    ensures
        response@ == response_to(result_view(result)),
{
    match result {
        Ok(player) => PlayerResponse { status: STATUS_OK, body: PlayerBody::Profile(player) },
        Err(ApiError::ClashApiError { reason, message }) => PlayerResponse {
            status: STATUS_BAD_REQUEST,
            body: PlayerBody::Upstream { reason, message },
        },
        Err(ApiError::InvalidPlayerTag(message)) => PlayerResponse {
            status: STATUS_BAD_REQUEST,
            body: PlayerBody::Failure { error: String::from_str("Invalid player tag"), message },
        },
        Err(error) => PlayerResponse {
            status: STATUS_INTERNAL_SERVER_ERROR,
            body: PlayerBody::Failure {
                error: String::from_str("Failed to fetch player data"),
                message: error.to_string(),
            },
        },
    }
}

/// One step of handling a request for a player. Called without a reply it
/// either answers at once (the tag was refused) or names the request to
/// send upstream; called with the reply to that request it answers. A
/// profile is only ever answered with 200, and its tag is not empty.
pub fn get_player(
    player_tag: &str,
    player_service: &PlayerService,
    reply: Option<UpstreamReply>,
) -> (next: Handled)
    ensures
        next@ == handled(service_step(player_service@, player_tag@, reply)),
        next matches Handled::Respond(response) ==> (response.body matches PlayerBody::Profile(
            player,
        ) ==> response.status == 200 && player.tag@.len() > 0),
{
    match player_service.get_player(player_tag, reply) {
        Lookup::Ask(request) => Handled::Ask(request),
        Lookup::Done(result) => Handled::Respond(respond(result)),
    }
}

/// A tag of fewer than three characters, the empty one among them, is
/// answered with 400 whatever reply the handler is called with, and with
/// none: no request is ever named for it, so nothing is sent upstream.
pub proof fn lemma_short_tag_is_refused_unsent(
    settings: ClashApiSettingsView,
    tag: Seq<char>,
    reply: Option<UpstreamReply>,
)
    requires
        tag.len() < 3,
    ensures
        tag_problem(tag) is Some,
        handled(service_step(settings, tag, reply)) == HandledView::Respond(
            PlayerResponseView {
                status: 400,
                body: PlayerBodyView::Failure {
                    error: "Invalid player tag"@,
                    message: tag_problem(tag).unwrap(),
                },
            },
        ),
{
}

/// The handler names a request exactly where the tag has at least three
/// characters and no reply has been handed in yet; the request is then the
/// one for that tag.
pub proof fn lemma_asks_once_for_accepted_tags(
    settings: ClashApiSettingsView,
    tag: Seq<char>,
    reply: Option<UpstreamReply>,
)
    ensures
        handled(service_step(settings, tag, reply)) is Ask <==> tag.len() >= 3 && reply is None,
        tag.len() >= 3 ==> handled(service_step(settings, tag, None)) == HandledView::Ask(
            player_request(settings, tag),
        ),
{
}

/// A profile that the upstream API sent for an accepted tag is answered
/// with 200 and that very profile, every field as it arrived. A profile
/// has a tag that is not empty.
pub proof fn lemma_profile_is_passed_on(
    settings: ClashApiSettingsView,
    tag: Seq<char>,
    player: Player,
)
    requires
        tag.len() >= 3,
        player.tag@.len() > 0,
    ensures
        handled(service_step(settings, tag, Some(UpstreamReply::Profile(player))))
            == HandledView::Respond(
            PlayerResponseView { status: 200, body: PlayerBodyView::Profile(player) },
        ),
{
}

/// A body that decodes as a profile but has an empty tag is no profile: it
/// is answered with 500 like any body that cannot be decoded.
pub proof fn lemma_profile_without_tag_is_refused(
    settings: ClashApiSettingsView,
    tag: Seq<char>,
    player: Player,
)
    requires
        tag.len() >= 3,
        player.tag@.len() == 0,
    ensures
        handled(service_step(settings, tag, Some(UpstreamReply::Profile(player))))
            == HandledView::Respond(
            PlayerResponseView {
                status: 500,
                body: PlayerBodyView::Failure {
                    error: "Failed to fetch player data"@,
                    message: "Internal server error: "@ + ("JSON parsing error: "@
                        + "player tag is empty"@),
                },
            },
        ),
{
}

/// Whatever the tag and whatever was replied, a profile is answered only
/// with 200 and only with a tag that is not empty.
pub proof fn lemma_answered_profile_has_tag(
    settings: ClashApiSettingsView,
    tag: Seq<char>,
    reply: Option<UpstreamReply>,
)
    ensures
        handled(service_step(settings, tag, reply)) matches HandledView::Respond(response) ==> (
        response.body matches PlayerBodyView::Profile(player) ==> response.status == 200
            && player.tag@.len() > 0),
{
}

/// An error envelope from the upstream API is answered with 400 and the
/// envelope's reason and message, whatever the status code it came with.
pub proof fn lemma_envelope_is_passed_on(
    settings: ClashApiSettingsView,
    tag: Seq<char>,
    status: u16,
    body: Option<String>,
    envelope: ApiErrorResponse,
)
    requires
        tag.len() >= 3,
    ensures
        handled(
            service_step(
                settings,
                tag,
                Some(UpstreamReply::Rejected { status, body, envelope: Some(envelope) }),
            ),
        ) == HandledView::Respond(
            PlayerResponseView {
                status: 400,
                body: PlayerBodyView::Upstream {
                    reason: envelope.reason@,
                    message: envelope.message@,
                },
            },
        ),
{
}

/// An upstream error whose body is no envelope is answered with 400, the
/// reason `unknown` and the body's text as the message, whatever the status
/// code it came with.
pub proof fn lemma_unreadable_rejection_is_unknown(
    settings: ClashApiSettingsView,
    tag: Seq<char>,
    status: u16,
    body: String,
)
    requires
        tag.len() >= 3,
    ensures
        handled(
            service_step(
                settings,
                tag,
                Some(UpstreamReply::Rejected { status, body: Some(body), envelope: None }),
            ),
        ) == HandledView::Respond(
            PlayerResponseView {
                status: 400,
                body: PlayerBodyView::Upstream { reason: "unknown"@, message: body@ },
            },
        ),
{
}

} // verus!
