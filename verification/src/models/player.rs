//! The player profile as the upstream API reports it, and the envelope the
//! upstream API wraps its errors in.
//!
//! A profile is read once per request and handed on unchanged; nothing in
//! this library edits one. Every counter is unsigned, so none can be
//! negative. The tag of a profile is never empty: a lookup refuses a body
//! whose tag is, so every profile it hands out has one.
//!
//! In JSON a field goes by the name it has here, but for those whose
//! comment gives another: the upstream API writes those in camel case.

use std::collections::HashMap;
use vstd::prelude::*;

verus! {

/// One player's profile.
#[derive(Debug, Clone, PartialEq)]
pub struct Player {
    /// The upstream identifier: not empty, conventionally starting with `#`.
    pub tag: String,
    pub name: String,
    /// Named `expLevel` in JSON.
    pub exp_level: u32,
    pub trophies: u32,
    /// Named `bestTrophies` in JSON.
    pub best_trophies: u32,
    pub wins: u32,
    pub losses: u32,
    /// Named `battleCount` in JSON.
    pub battle_count: u32,
    /// Named `threeCrownWins` in JSON.
    pub three_crown_wins: u32,
    /// Named `challengeCardsWon` in JSON.
    pub challenge_cards_won: u32,
    /// Named `challengeMaxWins` in JSON.
    pub challenge_max_wins: u32,
    /// Named `tournamentCardsWon` in JSON.
    pub tournament_cards_won: u32,
    /// Named `tournamentBattleCount` in JSON.
    pub tournament_battle_count: u32,
    pub role: Option<String>,
    pub donations: u32,
    /// Named `donationsReceived` in JSON.
    pub donations_received: u32,
    /// Named `totalDonations` in JSON.
    pub total_donations: u32,
    /// Named `warDayWins` in JSON.
    pub war_day_wins: u32,
    /// Named `clanCardsCollected` in JSON.
    pub clan_cards_collected: u32,
    pub clan: Option<Clan>,
    pub arena: Arena,
    /// Named `leagueStatistics` in JSON.
    pub league_statistics: Option<LeagueStatistics>,
    pub badges: Vec<Badge>,
    pub achievements: Vec<Achievement>,
    pub cards: Vec<Card>,
    /// Named `supportCards` in JSON.
    pub support_cards: Vec<Card>,
    /// Named `currentDeck` in JSON, where it may be left out: no deck is
    /// the empty one.
    pub current_deck: Vec<Card>,
    /// Named `currentDeckSupportCards` in JSON.
    pub current_deck_support_cards: Vec<Card>,
    /// Named `currentFavouriteCard` in JSON.
    pub current_favourite_card: Option<Card>,
    /// Named `starPoints` in JSON.
    pub star_points: u32,
    /// Named `expPoints` in JSON.
    pub exp_points: u32,
    /// Named `legacyTrophyRoadHighScore` in JSON.
    pub legacy_trophy_road_high_score: u32,
    /// Named `currentPathOfLegendSeasonResult` in JSON.
    pub current_path_of_legend_season_result: Option<PathOfLegendSeasonResult>,
    /// Named `lastPathOfLegendSeasonResult` in JSON.
    pub last_path_of_legend_season_result: Option<PathOfLegendSeasonResult>,
    /// Named `bestPathOfLegendSeasonResult` in JSON.
    pub best_path_of_legend_season_result: Option<PathOfLegendSeasonResult>,
    /// Progress per game mode, keyed by the mode's name.
    pub progress: HashMap<String, ProgressData>,
    /// Named `totalExpPoints` in JSON.
    pub total_exp_points: u32,
}

/// The clan a player belongs to.
#[derive(Debug, Clone, PartialEq)]
pub struct Clan {
    pub tag: String,
    pub name: String,
    /// Named `badgeId` in JSON.
    pub badge_id: u32,
}

/// An arena, by identifier and name.
#[derive(Debug, Clone, PartialEq)]
pub struct Arena {
    pub id: u32,
    pub name: String,
}

/// A player's league results over the current, previous and best seasons.
#[derive(Debug, Clone, PartialEq)]
pub struct LeagueStatistics {
    /// Named `currentSeason` in JSON.
    pub current_season: Season,
    /// Named `previousSeason` in JSON.
    pub previous_season: Option<Season>,
    /// Named `bestSeason` in JSON.
    pub best_season: Option<Season>,
}

/// One season's summary.
#[derive(Debug, Clone, PartialEq)]
pub struct Season {
    pub id: Option<String>,
    pub trophies: u32,
    /// Named `bestTrophies` in JSON.
    pub best_trophies: Option<u32>,
}

/// A badge and how far the player has come towards its next level.
#[derive(Debug, Clone, PartialEq)]
pub struct Badge {
    pub name: String,
    pub level: u32,
    /// Named `maxLevel` in JSON.
    pub max_level: u32,
    pub progress: u32,
    pub target: u32,
    /// Icon addresses, keyed by size.
    /// Named `iconUrls` in JSON.
    pub icon_urls: HashMap<String, String>,
}

/// An achievement and the player's standing in it.
#[derive(Debug, Clone, PartialEq)]
pub struct Achievement {
    pub name: String,
    pub stars: u32,
    pub value: u32,
    pub target: u32,
    pub info: String,
    /// Named `completionInfo` in JSON.
    pub completion_info: Option<String>,
}

/// A card; which of the optional fields are present depends on where the
/// card is listed.
#[derive(Debug, Clone, PartialEq)]
pub struct Card {
    pub name: String,
    pub id: u32,
    pub level: Option<u32>,
    /// Named `evolutionLevel` in JSON.
    pub evolution_level: Option<u32>,
    /// Named `maxLevel` in JSON.
    pub max_level: Option<u32>,
    /// Named `maxEvolutionLevel` in JSON.
    pub max_evolution_level: Option<u32>,
    pub rarity: Option<String>,
    pub count: Option<u32>,
    /// Named `elixirCost` in JSON.
    pub elixir_cost: Option<u32>,
    /// Icon addresses, keyed by size.
    /// Named `iconUrls` in JSON.
    pub icon_urls: Option<HashMap<String, String>>,
    /// Named `starLevel` in JSON.
    pub star_level: Option<u32>,
}

/// The outcome of one Path of Legend season.
#[derive(Debug, Clone, PartialEq)]
pub struct PathOfLegendSeasonResult {
    /// Named `leagueNumber` in JSON.
    pub league_number: u32,
    pub trophies: u32,
    pub rank: Option<u32>,
}

/// A player's progress in one game mode.
#[derive(Debug, Clone, PartialEq)]
pub struct ProgressData {
    pub arena: Arena,
    pub trophies: u32,
    /// Named `bestTrophies` in JSON.
    pub best_trophies: u32,
}

/// The envelope the upstream API reports an error in.
#[derive(Debug, Clone, PartialEq)]
pub struct ApiErrorResponse {
    pub reason: String,
    pub message: String,
}

} // verus!
