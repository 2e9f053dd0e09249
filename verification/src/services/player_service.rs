//! The player service: checks a tag, then lets the repository fetch.

use crate::config::settings::ClashApiSettingsView;
use crate::models::error::{ApiError, ApiErrorView};
use crate::models::upstream::{Lookup, LookupView, UpstreamReply};
use crate::repositories::clash_api_repository::{fetch_step, ClashApiRepository};
use vstd::prelude::*;
use vstd::string::{StrSliceExecFns, StringExecFns};

verus! {

/// The fewest characters a player tag may have.
pub const MIN_TAG_LENGTH: usize = 3;

/// What is wrong with a tag, if anything: an empty tag is refused with
/// `cannot be empty`, any other tag of fewer than three characters with
/// `too short`. Length is counted in characters, on the tag as the caller
/// wrote it.
pub open spec fn tag_problem(tag: Seq<char>) -> Option<Seq<char>> {
    if tag.len() == 0 {
        Some("cannot be empty"@)
    } else if tag.len() < MIN_TAG_LENGTH {
        Some("too short"@)
    } else {
        None
    }
}

/// One step of the service's lookup: a tag with a problem ends it at once,
/// whatever was or was not replied; any other tag is fetched.
pub open spec fn service_step(
    settings: ClashApiSettingsView,
    tag: Seq<char>,
    reply: Option<UpstreamReply>,
) -> LookupView {
    match tag_problem(tag) {
        Some(problem) => LookupView::Done(Err(ApiErrorView::InvalidPlayerTag(problem))),
        None => fetch_step(settings, tag, reply),
    }
}

/// The business layer: owns the rules a lookup must pass before the
/// repository is asked.
#[derive(Debug, Clone, PartialEq)]
pub struct PlayerService {
    clash_repository: ClashApiRepository,
}

impl View for PlayerService {
    type V = ClashApiSettingsView;

    closed spec fn view(&self) -> ClashApiSettingsView {
        self.clash_repository@
    }
}

impl PlayerService {
    /// A service that fetches through the given repository.
    pub fn new(clash_repository: ClashApiRepository) -> (service: Self)
        ensures
            service@ == clash_repository@,
    {
        PlayerService { clash_repository }
    }

    /// One step of looking a player up. A tag with a problem ends the
    /// lookup with `InvalidPlayerTag` and no request is ever named for it.
    /// For any other tag: called without a reply this names the request to
    /// send; called with the reply to that request it gives the result.
    /// A profile that comes out has a tag that is not empty.
    pub fn get_player(&self, player_tag: &str, reply: Option<UpstreamReply>) -> (lookup: Lookup)
        ensures
            lookup@ == service_step(self@, player_tag@, reply),
            lookup matches Lookup::Done(Ok(player)) ==> player.tag@.len() > 0,
    {
        match self.validate_player_tag(player_tag) {
            Err(error) => Lookup::Done(Err(error)),
            Ok(()) => self.clash_repository.fetch_player_data(player_tag, reply),
        }
    }

    /// Checks a tag: `Ok` exactly where it has at least three characters,
    /// else `InvalidPlayerTag` with the message that names the problem.
    pub fn validate_player_tag(&self, player_tag: &str) -> (checked: Result<(), ApiError>)
        ensures
            match tag_problem(player_tag@) {
                Some(problem) => checked is Err && checked->Err_0@
                    == ApiErrorView::InvalidPlayerTag(problem),
                None => checked is Ok,
            },
    {
        if player_tag.is_empty() {
            return Err(ApiError::InvalidPlayerTag(String::from_str("cannot be empty")));
        }
        if player_tag.unicode_len() < MIN_TAG_LENGTH {
            return Err(ApiError::InvalidPlayerTag(String::from_str("too short")));
        }
        Ok(())
    }
}

} // verus!
