//! Data carried through one request: the error kinds, the player schema and
//! the exchange with the upstream API.

pub mod error;
pub mod player;
pub mod upstream;

pub use error::{ApiError, ApiErrorView};
pub use player::{
    Achievement, ApiErrorResponse, Arena, Badge, Card, Clan, LeagueStatistics,
    PathOfLegendSeasonResult, Player, ProgressData, Season,
};
pub use upstream::{Lookup, LookupView, UpstreamReply, UpstreamRequest, UpstreamRequestView};
