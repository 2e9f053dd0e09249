//! The upstream client as a service of its own: the same exchange the
//! repository makes, for callers that hold no repository.

use crate::config::settings::{ClashApiSettings, ClashApiSettingsView};
use crate::models::upstream::{Lookup, UpstreamReply};
use crate::repositories::clash_api_repository::{build_request, fetch_step, interpret};
use vstd::prelude::*;

verus! {

/// Holds how the upstream API is reached.
#[derive(Debug, Clone, PartialEq)]
pub struct ClashApiService {
    settings: ClashApiSettings,
}

impl View for ClashApiService {
    type V = ClashApiSettingsView;

    closed spec fn view(&self) -> ClashApiSettingsView {
        self.settings@
    }
}

impl ClashApiService {
    /// A service that reaches the upstream API as the settings say.
    pub fn new(settings: ClashApiSettings) -> (service: Self)
        ensures
            service@ == settings@,
    {
        ClashApiService { settings }
    }

    /// One step of fetching a player's profile. Called without a reply it
    /// names the request to send, with the tag formatted and encoded;
    /// called with the reply to that request it gives the result. A
    /// profile that comes out has a tag that is not empty.
    pub fn get_player(&self, player_tag: &str, reply: Option<UpstreamReply>) -> (lookup: Lookup)
        ensures
            lookup@ == fetch_step(self@, player_tag@, reply),
            lookup matches Lookup::Done(Ok(player)) ==> player.tag@.len() > 0,
    {
        match reply {
            None => Lookup::Ask(build_request(&self.settings, player_tag)),
            Some(reply) => Lookup::Done(interpret(reply)),
        }
    }
}

} // verus!
