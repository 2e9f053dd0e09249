use clash_backend::config::ClashApiSettings;
use clash_backend::handlers::health::{health, health_at};
use clash_backend::handlers::player::{get_player, respond, Handled, PlayerBody, PlayerResponse};
use clash_backend::handlers::root::hello;
use clash_backend::models::{
    Achievement, ApiError, ApiErrorResponse, Arena, Badge, Card, Clan, LeagueStatistics,
    PathOfLegendSeasonResult, Player, ProgressData, Season, UpstreamReply, UpstreamRequest,
};
use clash_backend::repositories::ClashApiRepository;
use clash_backend::services::PlayerService;
use std::collections::HashMap;

fn service() -> PlayerService {
    PlayerService::new(ClashApiRepository::new(ClashApiSettings {
        base_url: "https://api.clashroyale.com/v1".to_string(),
        token: "t0k3n".to_string(),
    }))
}

fn card(name: &str, id: u32) -> Card {
    let mut icons = HashMap::new();
    icons.insert("medium".to_string(), format!("https://cdn.example.test/{}.png", id));
    Card {
        name: name.to_string(),
        id,
        level: Some(11),
        evolution_level: None,
        max_level: Some(14),
        max_evolution_level: Some(1),
        rarity: Some("common".to_string()),
        count: Some(1234),
        elixir_cost: Some(3),
        icon_urls: Some(icons),
        star_level: None,
    }
}

fn full_player() -> Player {
    let mut badge_icons = HashMap::new();
    badge_icons.insert("large".to_string(), "https://cdn.example.test/badge.png".to_string());
    let mut progress = HashMap::new();
    progress.insert(
        "goblin-road".to_string(),
        ProgressData {
            arena: Arena { id: 54000031, name: "Goblin Stadium".to_string() },
            trophies: 400,
            best_trophies: 450,
        },
    );
    Player {
        tag: "#ABC123".to_string(),
        name: "Ada".to_string(),
        exp_level: 42,
        trophies: 7012,
        best_trophies: 7500,
        wins: 3100,
        losses: 2900,
        battle_count: 6400,
        three_crown_wins: 1200,
        challenge_cards_won: 5000,
        challenge_max_wins: 12,
        tournament_cards_won: 70,
        tournament_battle_count: 33,
        role: Some("elder".to_string()),
        donations: 120,
        donations_received: 80,
        total_donations: 40000,
        war_day_wins: 81,
        clan_cards_collected: 90000,
        clan: Some(Clan { tag: "#CLAN1".to_string(), name: "Lovelace".to_string(), badge_id: 16000012 }),
        arena: Arena { id: 54000015, name: "Legendary Arena".to_string() },
        league_statistics: Some(LeagueStatistics {
            current_season: Season { id: None, trophies: 7012, best_trophies: Some(7100) },
            previous_season: Some(Season {
                id: Some("2024-05".to_string()),
                trophies: 6900,
                best_trophies: Some(7000),
            }),
            best_season: Some(Season { id: Some("2023-11".to_string()), trophies: 7500, best_trophies: None }),
        }),
        badges: vec![Badge {
            name: "Classic12Wins".to_string(),
            level: 3,
            max_level: 8,
            progress: 17,
            target: 25,
            icon_urls: badge_icons,
        }],
        achievements: vec![Achievement {
            name: "Team Player".to_string(),
            stars: 3,
            value: 9,
            target: 1,
            info: "Join a Clan".to_string(),
            completion_info: None,
        }],
        cards: vec![card("Knight", 26000000), card("Archers", 26000001)],
        support_cards: vec![card("Tower Princess", 159000000)],
        current_deck: vec![card("Knight", 26000000)],
        current_deck_support_cards: vec![card("Tower Princess", 159000000)],
        current_favourite_card: Some(card("Knight", 26000000)),
        star_points: 15000,
        exp_points: 2000,
        legacy_trophy_road_high_score: 7300,
        current_path_of_legend_season_result: Some(PathOfLegendSeasonResult {
            league_number: 4,
            trophies: 0,
            rank: None,
        }),
        last_path_of_legend_season_result: Some(PathOfLegendSeasonResult {
            league_number: 10,
            trophies: 1800,
            rank: Some(9000),
        }),
        best_path_of_legend_season_result: None,
        progress,
        total_exp_points: 250000,
    }
}

fn invalid_tag(message: &str) -> Handled {
    Handled::Respond(PlayerResponse {
        status: 400,
        body: PlayerBody::Failure {
            error: "Invalid player tag".to_string(),
            message: message.to_string(),
        },
    })
}

fn upstream_error(reason: &str, message: &str) -> Handled {
    Handled::Respond(PlayerResponse {
        status: 400,
        body: PlayerBody::Upstream { reason: reason.to_string(), message: message.to_string() },
    })
}

#[test]
fn short_tags_get_400_and_nothing_is_sent() {
    assert_eq!(get_player("", &service(), None), invalid_tag("cannot be empty"));
    assert_eq!(get_player("A", &service(), None), invalid_tag("too short"));
    assert_eq!(get_player("#A", &service(), None), invalid_tag("too short"));
    assert_eq!(get_player("é7", &service(), None), invalid_tag("too short"));
}

#[test]
fn short_tags_get_400_whatever_was_replied() {
    let replies = [
        UpstreamReply::Unreachable("timed out".to_string()),
        UpstreamReply::Profile(full_player()),
        UpstreamReply::Malformed("eof".to_string()),
        UpstreamReply::Rejected { status: 404, body: Some("boom".to_string()), envelope: None },
    ];
    for reply in replies {
        assert_eq!(
            get_player("", &service(), Some(reply.clone())),
            invalid_tag("cannot be empty")
        );
        assert_eq!(get_player("#A", &service(), Some(reply)), invalid_tag("too short"));
    }
}

#[test]
fn accepted_tag_is_sent_upstream_first() {
    assert_eq!(
        get_player("ABC123", &service(), None),
        Handled::Ask(UpstreamRequest {
            url: "https://api.clashroyale.com/v1/players/%23ABC123".to_string(),
            authorization: "Bearer t0k3n".to_string(),
        })
    );
}

#[test]
fn tag_with_and_without_hash_is_the_same_request() {
    assert_eq!(get_player("ABC123", &service(), None), get_player("#ABC123", &service(), None));
}

#[test]
fn profile_is_answered_with_200_field_for_field() {
    let answered = get_player("#ABC123", &service(), Some(UpstreamReply::Profile(full_player())));
    assert_eq!(
        answered,
        Handled::Respond(PlayerResponse { status: 200, body: PlayerBody::Profile(full_player()) })
    );
}

#[test]
fn profile_without_tag_is_answered_with_500() {
    let mut nameless = full_player();
    nameless.tag = String::new();
    assert_eq!(
        get_player("#ABC123", &service(), Some(UpstreamReply::Profile(nameless))),
        Handled::Respond(PlayerResponse {
            status: 500,
            body: PlayerBody::Failure {
                error: "Failed to fetch player data".to_string(),
                message: "Internal server error: JSON parsing error: player tag is empty"
                    .to_string(),
            },
        })
    );
}

#[test]
fn envelope_is_answered_with_400_and_its_own_words() {
    let body = "{\"reason\":\"notFound\",\"message\":\"Player not found\"}";
    for status in [404u16, 400, 403, 429, 500, 503] {
        let reply = UpstreamReply::Rejected {
            status,
            body: Some(body.to_string()),
            envelope: Some(ApiErrorResponse {
                reason: "notFound".to_string(),
                message: "Player not found".to_string(),
            }),
        };
        assert_eq!(
            get_player("#ABC123", &service(), Some(reply)),
            upstream_error("notFound", "Player not found")
        );
    }
}

#[test]
fn unparseable_error_body_is_answered_with_400_unknown() {
    for status in [404u16, 500, 502] {
        let reply =
            UpstreamReply::Rejected { status, body: Some("boom".to_string()), envelope: None };
        assert_eq!(get_player("#ABC123", &service(), Some(reply)), upstream_error("unknown", "boom"));
    }
}

#[test]
fn unreadable_error_body_is_answered_with_400_unknown_error() {
    let reply = UpstreamReply::Rejected { status: 500, body: None, envelope: None };
    assert_eq!(
        get_player("#ABC123", &service(), Some(reply)),
        upstream_error("unknown", "Unknown error")
    );
}

#[test]
fn transport_failure_is_answered_with_500() {
    let reply = UpstreamReply::Unreachable("connection refused".to_string());
    assert_eq!(
        get_player("#ABC123", &service(), Some(reply)),
        Handled::Respond(PlayerResponse {
            status: 500,
            body: PlayerBody::Failure {
                error: "Failed to fetch player data".to_string(),
                message: "Failed to fetch player data: connection refused".to_string(),
            },
        })
    );
}

#[test]
fn malformed_profile_is_answered_with_500() {
    let reply = UpstreamReply::Malformed("expected value at line 1 column 1".to_string());
    assert_eq!(
        get_player("#ABC123", &service(), Some(reply)),
        Handled::Respond(PlayerResponse {
            status: 500,
            body: PlayerBody::Failure {
                error: "Failed to fetch player data".to_string(),
                message:
                    "Internal server error: JSON parsing error: expected value at line 1 column 1"
                        .to_string(),
            },
        })
    );
}

#[test]
fn respond_maps_each_kind_of_result() {
    assert_eq!(
        respond(Ok(full_player())),
        PlayerResponse { status: 200, body: PlayerBody::Profile(full_player()) }
    );
    assert_eq!(
        respond(Err(ApiError::ClashApiError { reason: "r".to_string(), message: "m".to_string() })),
        PlayerResponse {
            status: 400,
            body: PlayerBody::Upstream { reason: "r".to_string(), message: "m".to_string() },
        }
    );
    assert_eq!(
        respond(Err(ApiError::InvalidPlayerTag("m".to_string()))),
        PlayerResponse {
            status: 400,
            body: PlayerBody::Failure {
                error: "Invalid player tag".to_string(),
                message: "m".to_string(),
            },
        }
    );
    assert_eq!(
        respond(Err(ApiError::FetchError("m".to_string()))),
        PlayerResponse {
            status: 500,
            body: PlayerBody::Failure {
                error: "Failed to fetch player data".to_string(),
                message: "Failed to fetch player data: m".to_string(),
            },
        }
    );
    assert_eq!(
        respond(Err(ApiError::InternalError("m".to_string()))),
        PlayerResponse {
            status: 500,
            body: PlayerBody::Failure {
                error: "Failed to fetch player data".to_string(),
                message: "Internal server error: m".to_string(),
            },
        }
    );
}

#[test]
fn two_lookups_do_not_touch_each_other() {
    let shared = service();
    let first_alone = get_player("#AAA", &shared, None);
    let second_alone = get_player("#BBB", &shared, None);
    // Interleave the two lookups' steps on the one service.
    let first = get_player("#AAA", &shared, None);
    let second = get_player("#BBB", &shared, None);
    let second_done =
        get_player("#BBB", &shared, Some(UpstreamReply::Unreachable("down".to_string())));
    let first_done = get_player("#AAA", &shared, Some(UpstreamReply::Profile(full_player())));
    assert_eq!(first, first_alone);
    assert_eq!(second, second_alone);
    assert_ne!(first, second);
    assert_eq!(
        first_done,
        Handled::Respond(PlayerResponse { status: 200, body: PlayerBody::Profile(full_player()) })
    );
    assert_eq!(
        second_done,
        Handled::Respond(PlayerResponse {
            status: 500,
            body: PlayerBody::Failure {
                error: "Failed to fetch player data".to_string(),
                message: "Failed to fetch player data: down".to_string(),
            },
        })
    );
    assert_eq!(get_player("#AAA", &shared, None), first_alone);
}

#[test]
fn health_at_reports_healthy_with_the_given_instant() {
    let response = health_at("2024-01-02T03:04:05.678Z".to_string());
    assert_eq!(response.status, 200);
    assert_eq!(response.body.status, "healthy");
    assert_eq!(response.body.timestamp, "2024-01-02T03:04:05.678Z");
}

#[test]
fn health_reports_healthy_now() {
    let response = health();
    assert_eq!(response.status, 200);
    assert_eq!(response.body.status, "healthy");
    let stamp = response.body.timestamp;
    // RFC 3339 in UTC: date, `T`, time, `Z`.
    assert!(stamp.len() >= 20, "{}", stamp);
    assert!(stamp.ends_with('Z'), "{}", stamp);
    assert_eq!(stamp.as_bytes()[4], b'-');
    assert_eq!(stamp.as_bytes()[7], b'-');
    assert_eq!(stamp.as_bytes()[10], b'T');
    assert_eq!(stamp.as_bytes()[13], b':');
    assert_eq!(stamp.as_bytes()[16], b':');
    assert!(&stamp[0..4] >= "2024", "{}", stamp);
    // At most a fraction of nine digits between the seconds and the `Z`.
    assert!(stamp.len() <= 30, "{}", stamp);
}

#[test]
fn health_needs_no_upstream() {
    // Nothing is configured and nothing was replied: the report is made all the same.
    assert_eq!(health().status, 200);
    assert_eq!(health().status, 200);
}

#[test]
fn hello_describes_the_service() {
    let response = hello();
    assert_eq!(response.status, 200);
    assert_eq!(response.body.message, "Clash Royale Stats API");
    assert_eq!(response.body.version, "1.0.0");
    assert_eq!(
        response.body.architecture,
        "Controller → Service → Repository → External API"
    );
    assert_eq!(response.body.endpoints.player, "/api/player/{player_tag}");
    assert_eq!(response.body.endpoints.health, "/health");
    assert_eq!(hello(), response);
}
