use pikadick::embed::EmbedPlan;
use pikadick::profile::{
    Metadata, MmrStat, MmrStatMetadata, NumberPercentageStat, NumberPrecision2Stat, NumberStat,
    RankPointsStat, RankPointsStatMetadata, Segment, SegmentGameMode, SegmentGameModeAttributes,
    SegmentGameModeStats, SegmentOverview, SegmentOverviewStats, SegmentSeason, SegmentSeasonAttributes,
    SegmentSeasonMetadata, SegmentSeasonStats, UserData, UserDataPlatformInfo, UserDataUserInfo,
};
use pikadick::r6tracker::{ApiError, ApiResponse, InvalidApiResponseError};
use pikadick::stats::{StatsReply, populate_season, stats_from_response, stats_reply};

fn season(mode: &str, no: u16) -> SegmentSeason {
    SegmentSeason {
        attributes: SegmentSeasonAttributes { season: no, game_mode: mode.to_string() },
        metadata: SegmentSeasonMetadata { color: "#00FF00".to_string() },
        stats: SegmentSeasonStats {
            mmr: Some(MmrStat {
                value: Some(2500),
                metadata: MmrStatMetadata { image_url: "https://example.com/m.png".to_string(), name: Some("Gold III".to_string()) },
            }),
            max_mmr: Some(MmrStat {
                value: Some(2700),
                metadata: MmrStatMetadata { image_url: "https://example.com/m.png".to_string(), name: Some("Gold I".to_string()) },
            }),
            rank_points: Some(RankPointsStat {
                value: Some(50),
                metadata: RankPointsStatMetadata { image_url: "https://example.com/rp.png".to_string(), name: None },
            }),
            max_rank_points: None,
            kd_ratio: NumberPrecision2Stat { two_decimals: "1.25".to_string() },
            win_percentage: NumberPercentageStat { two_decimals: "52.10".to_string() },
            matches_played: NumberStat { value: 123 },
        },
    }
}

fn profile() -> UserData {
    UserData {
        metadata: Metadata { current_season: 30, clearance_level: 250 },
        segments: vec![
            Segment::Overview(SegmentOverview {
                stats: SegmentOverviewStats {
                    kd_ratio: NumberPrecision2Stat { two_decimals: "1.05".to_string() },
                    win_percentage: NumberPercentageStat { two_decimals: "51.30".to_string() },
                },
            }),
            Segment::GameMode(Box::new(SegmentGameMode {
                attributes: SegmentGameModeAttributes { game_mode: "pvp_ranked".to_string() },
                stats: SegmentGameModeStats {
                    kd_ratio: NumberPrecision2Stat { two_decimals: "1.10".to_string() },
                    win_percentage: NumberPercentageStat { two_decimals: "53.00".to_string() },
                },
            })),
            Segment::Season(Box::new(season("pvp_ranked", 30))),
        ],
        platform_info: UserDataPlatformInfo {
            platform_user_handle: "Player".to_string(),
            avatar_url: "https://example.com/avatar.png".to_string(),
        },
        user_info: UserDataUserInfo { is_suspicious: Some(true) },
    }
}

fn fields(e: &EmbedPlan) -> Vec<(String, String, bool)> {
    e.fields.iter().map(|f| (f.name.clone(), f.value.clone(), f.inline)).collect()
}

fn f(n: &str, v: &str, i: bool) -> (String, String, bool) {
    (n.to_string(), v.to_string(), i)
}

#[test]
fn populate_season_fields() {
    let s = season("pvp_casual", 30);
    let e = populate_season(EmbedPlan::new(), Some(&s), "Casual");
    assert_eq!(
        fields(&e),
        vec![
            f("Current Casual Rank", "Gold III", true),
            f("Current Casual MMR", "2500", true),
            f("Seasonal Casual K/D", "1.25", true),
            f("Seasonal Casual Win %", "52.10", true),
            f("Seasonal # of Casual Matches", "123", true),
            f("", "", false),
        ]
    );
    assert!(populate_season(EmbedPlan::new(), None, "Casual").fields.is_empty());
}

#[test]
fn stats_embed() {
    let stats = stats_from_response(ApiResponse::Valid(profile())).unwrap().unwrap();
    let e = stats.populate_embed(EmbedPlan::new());
    assert_eq!(e.title.as_deref(), Some("Player"));
    assert_eq!(e.image.as_deref(), Some("https://example.com/avatar.png"));
    assert_eq!(e.color, Some(0x00FF00));
    assert_eq!(e.thumbnail.as_deref(), Some("https://example.com/rp.png"));
    assert_eq!(
        fields(&e),
        vec![
            f("Level", "250", true),
            f("Suspected Cheater", "true", true),
            f("", "", false),
            f("Best Rank", "Gold I", true),
            f("Best MMR", "2700", true),
            f("", "", false),
            f("Lifetime K/D", "1.05", true),
            f("Lifetime Win %", "51.30", true),
            f("", "", false),
            f("Lifetime Ranked K/D", "1.10", true),
            f("Lifetime Ranked Win %", "53.00", true),
            f("", "", false),
            f("Current Ranked Rank", "Gold III", true),
            f("Current Ranked MMR", "2500", true),
            f("Seasonal Ranked K/D", "1.25", true),
            f("Seasonal Ranked Win %", "52.10", true),
            f("Seasonal # of Ranked Matches", "123", true),
            f("", "", false),
        ]
    );
    match stats_reply(Some(&stats)) {
        StatsReply::Embed(e) => {
            assert_eq!(e.fields.len(), 18);
            assert_eq!(e.image.as_deref(), Some("https://example.com/avatar.png"));
            assert_eq!(e.title.as_deref(), Some("Player"));
            assert_eq!(e.timestamp, None);
        },
        StatsReply::Content(_) => panic!("expected an embed"),
    }
}

#[test]
fn bare_profile_embed() {
    let mut p = profile();
    p.segments.clear();
    p.user_info.is_suspicious = None;
    let stats = stats_from_response(ApiResponse::Valid(p)).unwrap().unwrap();
    let e = stats.populate_embed(EmbedPlan::new().color(7));
    assert_eq!(e.color, Some(7));
    assert!(e.thumbnail.is_none());
    assert_eq!(fields(&e), vec![f("Level", "250", true), f("Suspected Cheater", "false", true), f("", "", false)]);
}

#[test]
fn lookup_outcomes() {
    let missing = ApiResponse::<UserData>::Invalid(InvalidApiResponseError(vec![ApiError {
        code: "CollectorResultStatus::NoData".to_string(),
        message: "no data".to_string(),
    }]));
    assert!(stats_from_response(missing).unwrap().is_none());
    let failed = ApiResponse::<UserData>::Invalid(InvalidApiResponseError(vec![ApiError {
        code: "Other".to_string(),
        message: "oops".to_string(),
    }]));
    assert_eq!(stats_from_response(failed).unwrap_err().0[0].message, "oops");
    match stats_reply(None) {
        StatsReply::Content(c) => assert_eq!(c, "User does not exist or has not played R6 Siege."),
        StatsReply::Embed(_) => panic!("expected a message"),
    }
}
