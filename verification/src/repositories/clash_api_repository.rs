//! The upstream client: which request fetches a player, and what a reply
//! to it means.

use crate::config::settings::{value_or, ClashApiSettings, ClashApiSettingsView};
use crate::encoding::{lemma_hash_is_escaped, url_encode, url_encoded};
use crate::models::error::{ApiError, ApiErrorView};
use crate::models::player::{ApiErrorResponse, Player};
use crate::models::upstream::{
    result_view, Lookup, LookupView, UpstreamReply, UpstreamRequest, UpstreamRequestView,
};
use vstd::prelude::*;
use vstd::string::{StrSliceExecFns, StringExecFns};

verus! {

/// Whether a tag already carries its leading `#`.
pub open spec fn has_hash(tag: Seq<char>) -> bool {
    tag.len() > 0 && tag[0] == '#'
}

/// A tag in the form the upstream API knows it by: with a leading `#`.
pub open spec fn formatted_tag(tag: Seq<char>) -> Seq<char> {
    if has_hash(tag) {
        tag
    } else {
        seq!['#'] + tag
    }
}

/// The address of a player's profile: the base URL, `/players/`, and the
/// formatted tag percent-encoded as one path segment.
pub open spec fn player_url(base_url: Seq<char>, tag: Seq<char>) -> Seq<char> {
    base_url + "/players/"@ + url_encoded(formatted_tag(tag))
}

/// The request that fetches a player's profile.
pub open spec fn player_request(settings: ClashApiSettingsView, tag: Seq<char>) -> UpstreamRequestView {
    UpstreamRequestView {
        url: player_url(settings.base_url, tag),
        authorization: "Bearer "@ + settings.token,
    }
}

/// The error that a refusal by the upstream API becomes: the envelope's
/// reason and message where the body was one, else the reason `unknown`
/// with the body's text for a message.
pub open spec fn rejection(
    body: Option<String>,
    envelope: Option<ApiErrorResponse>,
) -> ApiErrorView {
    match envelope {
        Some(envelope) => ApiErrorView::ClashApiError {
            reason: envelope.reason@,
            message: envelope.message@,
        },
        None => ApiErrorView::ClashApiError {
            reason: "unknown"@,
            message: value_or(body, "Unknown error"@),
        },
    }
}

/// What a reply means for the lookup. A profile counts as one only where
/// its tag is not empty: one without a tag is a body that is no profile.
pub open spec fn interpreted(reply: UpstreamReply) -> Result<Player, ApiErrorView> {
    match reply {
        UpstreamReply::Unreachable(detail) => Err(ApiErrorView::FetchError(detail@)),
        UpstreamReply::Profile(player) => if player.tag@.len() > 0 {
            Ok(player)
        } else {
            Err(ApiErrorView::InternalError("JSON parsing error: "@ + "player tag is empty"@))
        },
        UpstreamReply::Malformed(detail) => Err(
            ApiErrorView::InternalError("JSON parsing error: "@ + detail@),
        ),
        UpstreamReply::Rejected { status, body, envelope } => Err(rejection(body, envelope)),
    }
}

/// One step of fetching a player: without a reply, the request to send;
/// with one, what it means.
pub open spec fn fetch_step(
    settings: ClashApiSettingsView,
    tag: Seq<char>,
    reply: Option<UpstreamReply>,
) -> LookupView {
    match reply {
        None => LookupView::Ask(player_request(settings, tag)),
        Some(reply) => LookupView::Done(interpreted(reply)),
    }
}

/// Puts a tag in the form the upstream API knows it by.
pub fn format_tag(player_tag: &str) -> (formatted: String)
    ensures
        formatted@ == formatted_tag(player_tag@),
{
    if !player_tag.is_empty() && player_tag.get_char(0) == '#' {
        player_tag.to_owned()
    } else {
        proof {
            reveal_strlit("#");
            assert("#"@ =~= seq!['#']);
        }
        String::from_str("#").concat(player_tag)
    }
}

/// Names the request that fetches a player's profile.
pub fn build_request(settings: &ClashApiSettings, player_tag: &str) -> (request: UpstreamRequest)
    ensures
        request@ == player_request(settings@, player_tag@),
{
    let formatted = format_tag(player_tag);
    let encoded = url_encode(formatted.as_str());
    let url = settings.base_url.clone().concat("/players/").concat(encoded.as_str());
    let authorization = String::from_str("Bearer ").concat(settings.token.as_str());
    UpstreamRequest { url, authorization }
}

/// Says what a reply means for the lookup: the profile where one arrived
/// with a tag that is not empty, else the error that tells why none did.
pub fn interpret(reply: UpstreamReply) -> (result: Result<Player, ApiError>)
    ensures
        result_view(result) == interpreted(reply),
        result matches Ok(player) ==> player.tag@.len() > 0,
{
    match reply {
        UpstreamReply::Unreachable(detail) => Err(ApiError::FetchError(detail)),
        UpstreamReply::Profile(player) => {
            if player.tag.as_str().is_empty() {
                Err(
                    ApiError::InternalError(
                        String::from_str("JSON parsing error: ").concat("player tag is empty"),
                    ),
                )
            } else {
                Ok(player)
            }
        },
        UpstreamReply::Malformed(detail) => Err(
            ApiError::InternalError(
                String::from_str("JSON parsing error: ").concat(detail.as_str()),
            ),
        ),
        UpstreamReply::Rejected { status: _, body, envelope } => match envelope {
            Some(envelope) => Err(
                ApiError::ClashApiError { reason: envelope.reason, message: envelope.message },
            ),
            None => {
                let message = match body {
                    Some(text) => text,
                    None => String::from_str("Unknown error"),
                };
                Err(ApiError::ClashApiError { reason: String::from_str("unknown"), message })
            },
        },
    }
}

/// The data-access layer: holds how the upstream API is reached.
#[derive(Debug, Clone, PartialEq)]
pub struct ClashApiRepository {
    settings: ClashApiSettings,
}

impl View for ClashApiRepository {
    type V = ClashApiSettingsView;

    closed spec fn view(&self) -> ClashApiSettingsView {
        self.settings@
    }
}

impl ClashApiRepository {
    /// A repository that reaches the upstream API as the settings say.
    pub fn new(settings: ClashApiSettings) -> (repository: Self)
        ensures
            repository@ == settings@,
    {
        ClashApiRepository { settings }
    }

    /// One step of fetching a player's profile. Called without a reply it
    /// names the request to send; called with the reply to that request it
    /// gives the result. A profile that comes out has a tag that is not
    /// empty.
    pub fn fetch_player_data(&self, player_tag: &str, reply: Option<UpstreamReply>) -> (lookup:
        Lookup)
        ensures
            lookup@ == fetch_step(self@, player_tag@, reply),
            lookup matches Lookup::Done(Ok(player)) ==> player.tag@.len() > 0,
    {
        match reply {
            None => Lookup::Ask(build_request(&self.settings, player_tag)),
            Some(reply) => Lookup::Done(interpret(reply)),
        }
    }

    /// Puts a tag in the form the upstream API knows it by: with a leading
    /// `#`, added where the tag has none.
    pub fn format_player_tag(&self, player_tag: &str) -> (formatted: String)
        ensures
            formatted@ == formatted_tag(player_tag@),
    {
        format_tag(player_tag)
    }
}

/// Every profile that a lookup hands out has a tag that is not empty.
pub proof fn lemma_fetched_profile_has_tag(
    settings: ClashApiSettingsView,
    tag: Seq<char>,
    reply: Option<UpstreamReply>,
)
    ensures
        fetch_step(settings, tag, reply) matches LookupView::Done(Ok(player)) ==> player.tag@.len()
            > 0,
{
}

/// A tag is sent the same with or without its `#`: a tag that has none is
/// given one, and both forms ask for the same address with the same
/// authorization.
pub proof fn lemma_hash_is_optional(settings: ClashApiSettingsView, tag: Seq<char>)
    requires
        !has_hash(tag),
    ensures
        formatted_tag(tag) == seq!['#'] + tag,
        formatted_tag(seq!['#'] + tag) == formatted_tag(tag),
        player_url(settings.base_url, seq!['#'] + tag) == player_url(settings.base_url, tag),
        player_request(settings, seq!['#'] + tag) == player_request(settings, tag),
{
    assert((seq!['#'] + tag)[0] == '#');
}

/// Formatting a tag twice changes nothing more.
pub proof fn lemma_formatted_tag_is_stable(tag: Seq<char>)
    ensures
        has_hash(formatted_tag(tag)),
        formatted_tag(formatted_tag(tag)) == formatted_tag(tag),
{
    if !has_hash(tag) {
        assert((seq!['#'] + tag)[0] == '#');
    }
}

/// In every address the tag's `#` is sent as `%23`, whether the caller
/// wrote it or not.
pub proof fn lemma_hash_is_sent_escaped(base_url: Seq<char>, tag: Seq<char>)
    ensures
        player_url(base_url, tag) == base_url + "/players/"@ + seq!['%', '2', '3'] + url_encoded(
            formatted_tag(tag).drop_first(),
        ),
{
    lemma_formatted_tag_is_stable(tag);
    let formatted = formatted_tag(tag);
    assert(formatted =~= seq!['#'] + formatted.drop_first());
    lemma_hash_is_escaped(formatted.drop_first());
    assert(base_url + "/players/"@ + (seq!['%', '2', '3'] + url_encoded(formatted.drop_first()))
        =~= base_url + "/players/"@ + seq!['%', '2', '3'] + url_encoded(formatted.drop_first()));
}

} // verus!
