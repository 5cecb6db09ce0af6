use pikadick::profile::{
    Metadata, MmrStat, MmrStatMetadata, NumberPercentageStat, NumberPrecision2Stat, NumberStat,
    RankPointsStat, RankPointsStatMetadata, Segment, SegmentGameMode, SegmentGameModeAttributes,
    SegmentGameModeStats, SegmentOverview, SegmentOverviewStats, SegmentSeason, SegmentSeasonAttributes,
    SegmentSeasonMetadata, SegmentSeasonStats, UserData, UserDataPlatformInfo, UserDataUserInfo,
};

fn p2(s: &str) -> NumberPrecision2Stat {
    NumberPrecision2Stat { two_decimals: s.to_string() }
}

fn pct(s: &str) -> NumberPercentageStat {
    NumberPercentageStat { two_decimals: s.to_string() }
}

fn mmr(value: Option<u32>, name: Option<&str>) -> Option<MmrStat> {
    Some(MmrStat {
        value,
        metadata: MmrStatMetadata {
            image_url: "https://example.com/mmr.png".to_string(),
            name: name.map(str::to_string),
        },
    })
}

fn rp(value: Option<u32>, name: Option<&str>, image: &str) -> Option<RankPointsStat> {
    Some(RankPointsStat {
        value,
        metadata: RankPointsStatMetadata { image_url: image.to_string(), name: name.map(str::to_string) },
    })
}

fn season(no: u16, mode: &str, max_mmr: Option<MmrStat>, max_rp: Option<RankPointsStat>) -> SegmentSeason {
    SegmentSeason {
        attributes: SegmentSeasonAttributes { season: no, game_mode: mode.to_string() },
        metadata: SegmentSeasonMetadata { color: "#B1E6AA".to_string() },
        stats: SegmentSeasonStats {
            mmr: None,
            max_mmr,
            rank_points: None,
            max_rank_points: max_rp,
            kd_ratio: p2("1.00"),
            win_percentage: pct("50.00"),
            matches_played: NumberStat { value: 10 },
        },
    }
}

fn user(current: u16, segments: Vec<Segment>) -> UserData {
    UserData {
        metadata: Metadata { current_season: current, clearance_level: 42 },
        segments,
        platform_info: UserDataPlatformInfo {
            platform_user_handle: "Player".to_string(),
            avatar_url: "https://example.com/a.png".to_string(),
        },
        user_info: UserDataUserInfo { is_suspicious: None },
    }
}

fn boxed(s: SegmentSeason) -> Segment {
    Segment::Season(Box::new(s))
}

#[test]
fn season_modes() {
    let s = season(1, "pvp_ranked", None, None);
    assert!(s.is_ranked() && !s.is_casual() && !s.is_unranked());
    let s = season(1, "pvp_casual", None, None);
    assert!(!s.is_ranked() && s.is_casual() && !s.is_unranked());
    let s = season(1, "pvp_standard", None, None);
    assert!(!s.is_ranked() && !s.is_casual() && s.is_unranked());
    assert_eq!(s.color_u32(), Some(0xB1E6AA));
    assert_eq!(s.matches_played_value(), 10);
}

#[test]
fn rankings_prefer_mmr() {
    let s = season(1, "pvp_ranked", mmr(Some(3000), Some("Gold I")), rp(Some(2500), Some("Gold II"), "x"));
    assert_eq!(s.max_mmr_value(), Some(3000));
    assert_eq!(s.max_rank_points_value(), Some(2500));
    assert_eq!(s.max_ranking_value(), Some(3000));
    assert_eq!(s.max_ranking_rank_name(), Some("Gold I"));
    let s = season(1, "pvp_ranked", mmr(None, None), rp(Some(2500), Some("Gold II"), "x"));
    assert_eq!(s.max_ranking_value(), Some(2500));
    assert_eq!(s.max_ranking_rank_name(), Some("Gold II"));
    assert_eq!(s.max_mmr_rank_name(), None);
    assert_eq!(s.max_rank_points_rank_name(), Some("Gold II"));
    let s = season(1, "pvp_ranked", None, None);
    assert_eq!(s.max_ranking_value(), None);
    assert_eq!(s.ranking_value(), None);
    assert_eq!(s.ranking_rank_name(), None);
    assert_eq!(s.mmr_value(), None);
    assert_eq!(s.ranking_points_value(), None);
    assert_eq!(s.mmr_rank_name(), None);
    assert_eq!(s.ranking_points_rank_name(), None);
}

#[test]
fn max_ranked_season_takes_last_of_equals() {
    let data = user(
        5,
        vec![
            boxed(season(1, "pvp_ranked", mmr(Some(2000), None), None)),
            boxed(season(2, "pvp_ranked", mmr(Some(3000), None), None)),
            boxed(season(3, "pvp_casual", mmr(Some(9000), None), None)),
            boxed(season(4, "pvp_ranked", None, rp(Some(3000), None, "x"))),
            boxed(season(5, "pvp_ranked", None, None)),
        ],
    );
    assert_eq!(data.get_max_ranked_season().unwrap().attributes.season, 4);
    let none = user(5, vec![boxed(season(3, "pvp_casual", mmr(Some(9000), None), None))]);
    assert!(none.get_max_ranked_season().is_none());
}

#[test]
fn current_seasons() {
    let data = user(
        5,
        vec![
            boxed(season(4, "pvp_ranked", None, None)),
            boxed(season(5, "pvp_casual", None, None)),
            boxed(season(5, "pvp_ranked", None, rp(Some(1), None, "https://example.com/rank.png"))),
            boxed(season(5, "pvp_ranked", None, None)),
        ],
    );
    let ranked = data.get_current_ranked_season().unwrap();
    assert_eq!(ranked.attributes.season, 5);
    assert!(ranked.stats.max_rank_points.is_some());
    assert_eq!(data.get_current_casual_season().unwrap().attributes.game_mode, "pvp_casual");
    assert!(data.get_current_unranked_season().is_none());
    assert!(data.current_rank_points_image().is_none());
    let mut with_image = season(5, "pvp_ranked", None, None);
    with_image.stats.rank_points = rp(Some(1), None, "https://example.com/rank.png");
    let data = user(5, vec![boxed(with_image)]);
    assert_eq!(data.current_rank_points_image(), Some("https://example.com/rank.png"));
}

#[test]
fn overview_and_game_mode() {
    let overview = Segment::Overview(SegmentOverview {
        stats: SegmentOverviewStats { kd_ratio: p2("1.10"), win_percentage: pct("55.00") },
    });
    let casual = Segment::GameMode(Box::new(SegmentGameMode {
        attributes: SegmentGameModeAttributes { game_mode: "pvp_casual".to_string() },
        stats: SegmentGameModeStats { kd_ratio: p2("0.90"), win_percentage: pct("40.00") },
    }));
    let ranked = Segment::GameMode(Box::new(SegmentGameMode {
        attributes: SegmentGameModeAttributes { game_mode: "pvp_ranked".to_string() },
        stats: SegmentGameModeStats { kd_ratio: p2("1.30"), win_percentage: pct("60.00") },
    }));
    assert!(overview.overview_ref().is_some() && overview.season_ref().is_none());
    assert!(casual.game_mode_ref().is_some() && casual.overview_ref().is_none());
    let data = user(1, vec![casual, ranked, overview]);
    assert_eq!(data.get_ranked_game_mode().unwrap().stats.kd_ratio.two_decimals, "1.30");
    assert!(data.get_ranked_game_mode().unwrap().is_ranked());
    assert_eq!(data.get_overview().unwrap().stats.win_percentage.two_decimals, "55.00");
    assert!(user(1, Vec::new()).get_overview().is_none());
}
