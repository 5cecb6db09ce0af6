//! R6Tracker statistics of a user, and the embed that presents them.
use vstd::prelude::*;
use crate::embed::{EmbedPlan, FieldView, fields_view};
use crate::hex::parse_hex_color_spec;
use crate::profile::{
    SegmentSeason, UserData, casual_mode, first_overview, first_ranked_game_mode,
    first_season_in_mode, max_ranked_season_spec, ranked_mode, unranked_mode,
};
use crate::r6tracker::{ApiResponse, InvalidApiResponseError};
use crate::text::{concat3, decimal, u64_to_decimal};

verus! {

/// The text of a boolean, as `to_string` writes it.
pub open spec fn bool_text(b: bool) -> Seq<char> {
    if b {
        "true"@
    } else {
        "false"@
    }
}

/// The season a borrowed option points at.
pub open spec fn opt_season(s: Option<&SegmentSeason>) -> Option<SegmentSeason> {
    match s {
        Some(v) => Some(*v),
        None => None,
    }
}

/// The blank field that ends a group of fields.
pub open spec fn separator() -> FieldView {
    (""@, ""@, false)
}

/// The fields that present one season of one game mode.
pub open spec fn season_fields(season: Option<SegmentSeason>, game_mode_name: Seq<char>) -> Seq<FieldView> {
    match season {
        None => Seq::empty(),
        Some(s) => (match s.ranking_name_spec() {
            Some(n) => seq![("Current "@ + game_mode_name + " Rank"@, n, true)],
            None => Seq::empty(),
        }) + (match s.ranking_spec() {
            Some(v) => seq![("Current "@ + game_mode_name + " MMR"@, decimal(v as nat), true)],
            None => Seq::empty(),
        }) + seq![
            ("Seasonal "@ + game_mode_name + " K/D"@, s.stats.kd_ratio.two_decimals@, true),
            ("Seasonal "@ + game_mode_name + " Win %"@, s.stats.win_percentage.two_decimals@, true),
            ("Seasonal # of "@ + game_mode_name + " Matches"@, decimal(s.stats.matches_played.value as nat), true),
            separator(),
        ],
    }
}

/// The fields that open a profile: level, suspicion of cheating, separator.
pub open spec fn header_fields(p: UserData) -> Seq<FieldView> {
    seq![
        ("Level"@, decimal(p.metadata.clearance_level as nat), true),
        ("Suspected Cheater"@, bool_text(p.user_info.is_suspicious.unwrap_or(false)), true),
        separator(),
    ]
}

/// The fields of the best ranked season, when there is one.
pub open spec fn best_fields(p: UserData) -> Seq<FieldView> {
    match max_ranked_season_spec(p.segments@) {
        Some(s) => (match s.max_ranking_name_spec() {
            Some(n) => seq![("Best Rank"@, n, true)],
            None => Seq::empty(),
        }) + (match s.max_ranking_spec() {
            Some(v) => seq![("Best MMR"@, decimal(v as nat), true)],
            None => Seq::empty(),
        }) + seq![separator()],
        None => Seq::empty(),
    }
}

/// The lifetime fields, when the profile has an overview.
pub open spec fn overview_fields(p: UserData) -> Seq<FieldView> {
    match first_overview(p.segments@) {
        Some(o) => seq![
            ("Lifetime K/D"@, o.stats.kd_ratio.two_decimals@, true),
            ("Lifetime Win %"@, o.stats.win_percentage.two_decimals@, true),
            separator(),
        ],
        None => Seq::empty(),
    }
}

/// The lifetime ranked fields, when the profile has a ranked game mode segment.
pub open spec fn ranked_game_mode_fields(p: UserData) -> Seq<FieldView> {
    match first_ranked_game_mode(p.segments@) {
        Some(g) => seq![
            ("Lifetime Ranked K/D"@, g.stats.kd_ratio.two_decimals@, true),
            ("Lifetime Ranked Win %"@, g.stats.win_percentage.two_decimals@, true),
            separator(),
        ],
        None => Seq::empty(),
    }
}

/// The fields of the current ranked, casual and unranked seasons.
pub open spec fn current_season_fields(p: UserData) -> Seq<FieldView> {
    let segs = p.segments@;
    let cur = p.metadata.current_season;
    season_fields(first_season_in_mode(segs, cur, ranked_mode()), "Ranked"@)
        + season_fields(first_season_in_mode(segs, cur, casual_mode()), "Casual"@)
        + season_fields(first_season_in_mode(segs, cur, unranked_mode()), "Unranked"@)
}

/// The fields that present a whole profile.
pub open spec fn profile_fields(p: UserData) -> Seq<FieldView> {
    header_fields(p) + best_fields(p) + overview_fields(p) + ranked_game_mode_fields(p)
        + current_season_fields(p)
}

/// A profile's embed opens with the user's level, then the "Suspected
/// Cheater" field, which reads `true` exactly when the profile says the user
/// is suspicious and `false` when it says they are not, or says nothing; a
/// blank separator follows.
pub proof fn law_suspected_cheater_field(p: UserData)
    ensures
        profile_fields(p).len() > 2,
        profile_fields(p)[0] == ("Level"@, decimal(p.metadata.clearance_level as nat), true),
        profile_fields(p)[2] == (""@, ""@, false),
        profile_fields(p)[1].0 == "Suspected Cheater"@,
        profile_fields(p)[1].2,
        p.user_info.is_suspicious == Some(true) ==> profile_fields(p)[1].1 == "true"@,
        p.user_info.is_suspicious == Some(false) ==> profile_fields(p)[1].1 == "false"@,
        p.user_info.is_suspicious is None ==> profile_fields(p)[1].1 == "false"@,
{
    let h = header_fields(p);
    assert(h.len() == 3);
    assert(profile_fields(p) == h + (best_fields(p) + overview_fields(p) + ranked_game_mode_fields(p)
        + current_season_fields(p))) by {
        assert(profile_fields(p) =~= h + (best_fields(p) + overview_fields(p) + ranked_game_mode_fields(p)
            + current_season_fields(p)));
    }
}

/// Whether `r` is `e` with `extra` fields appended and nothing else changed.
pub open spec fn appended(e: EmbedPlan, r: EmbedPlan, extra: Seq<FieldView>) -> bool {
    &&& r.title == e.title
    &&& r.url == e.url
    &&& r.image == e.image
    &&& r.thumbnail == e.thumbnail
    &&& r.color == e.color
    &&& r.timestamp == e.timestamp
    &&& fields_view(r.fields@) == fields_view(e.fields@) + extra
}

fn push_header(e: EmbedPlan, p: &UserData) -> (r: EmbedPlan)
    ensures
        appended(e, r, header_fields(*p)),
{
    let ghost start = fields_view(e.fields@);
    let mut e = e.field(String::from_str("Level"), u64_to_decimal(p.metadata.clearance_level as u64), true);
    let suspicious = match p.user_info.is_suspicious {
        Some(b) => b,
        None => false,
    };
    e = e.field(
        String::from_str("Suspected Cheater"),
        String::from_str(if suspicious { "true" } else { "false" }),
        true,
    );
    e = e.field(String::from_str(""), String::from_str(""), false);
    assert(fields_view(e.fields@) =~= start + header_fields(*p));
    e
}

fn push_best(e: EmbedPlan, p: &UserData) -> (r: EmbedPlan)
    ensures
        appended(e, r, best_fields(*p)),
{
    let mut e = e;
    let ghost start = fields_view(e.fields@);
    if let Some(max_ranked_season) = p.get_max_ranked_season() {
        let ghost name_part: Seq<FieldView> = match max_ranked_season.max_ranking_name_spec() {
            Some(n) => seq![("Best Rank"@, n, true)],
            None => Seq::empty(),
        };
        let ghost value_part: Seq<FieldView> = match max_ranked_season.max_ranking_spec() {
            Some(v) => seq![("Best MMR"@, decimal(v as nat), true)],
            None => Seq::empty(),
        };
        if let Some(max_rank) = max_ranked_season.max_ranking_rank_name() {
            e = e.field(String::from_str("Best Rank"), String::from_str(max_rank), true);
        }
        assert(fields_view(e.fields@) =~= start + name_part);
        if let Some(max_mmr) = max_ranked_season.max_ranking_value() {
            e = e.field(String::from_str("Best MMR"), u64_to_decimal(max_mmr as u64), true);
        }
        assert(fields_view(e.fields@) =~= start + name_part + value_part);
        e = e.field(String::from_str(""), String::from_str(""), false);
        assert(fields_view(e.fields@) =~= start + best_fields(*p));
    } else {
        assert(fields_view(e.fields@) =~= start + best_fields(*p));
    }
    e
}

fn push_overview(e: EmbedPlan, p: &UserData) -> (r: EmbedPlan)
    ensures
        appended(e, r, overview_fields(*p)),
{
    let mut e = e;
    let ghost start = fields_view(e.fields@);
    if let Some(overview) = p.get_overview() {
        e = e.field(
            String::from_str("Lifetime K/D"),
            String::from_str(overview.stats.kd_ratio.two_decimals.as_str()),
            true,
        );
        e = e.field(
            String::from_str("Lifetime Win %"),
            String::from_str(overview.stats.win_percentage.two_decimals.as_str()),
            true,
        );
        e = e.field(String::from_str(""), String::from_str(""), false);
    }
    assert(fields_view(e.fields@) =~= start + overview_fields(*p));
    e
}

fn push_ranked_game_mode(e: EmbedPlan, p: &UserData) -> (r: EmbedPlan)
    ensures
        appended(e, r, ranked_game_mode_fields(*p)),
{
    let mut e = e;
    let ghost start = fields_view(e.fields@);
    if let Some(game_mode) = p.get_ranked_game_mode() {
        e = e.field(
            String::from_str("Lifetime Ranked K/D"),
            String::from_str(game_mode.stats.kd_ratio.two_decimals.as_str()),
            true,
        );
        e = e.field(
            String::from_str("Lifetime Ranked Win %"),
            String::from_str(game_mode.stats.win_percentage.two_decimals.as_str()),
            true,
        );
        e = e.field(String::from_str(""), String::from_str(""), false);
    }
    assert(fields_view(e.fields@) =~= start + ranked_game_mode_fields(*p));
    e
}

fn push_current_seasons(e: EmbedPlan, p: &UserData) -> (r: EmbedPlan)
    ensures
        appended(e, r, current_season_fields(*p)),
{
    let ghost start = fields_view(e.fields@);
    let mut e = populate_season(e, p.get_current_ranked_season(), "Ranked");
    e = populate_season(e, p.get_current_casual_season(), "Casual");
    e = populate_season(e, p.get_current_unranked_season(), "Unranked");
    assert(fields_view(e.fields@) =~= start + current_season_fields(*p));
    e
}

/// Appends the fields that present `season` under the name `game_mode_name`.
pub fn populate_season(embed: EmbedPlan, season: Option<&SegmentSeason>, game_mode_name: &str) -> (r: EmbedPlan)
    ensures
        r.title == embed.title,
        r.url == embed.url,
        r.image == embed.image,
        r.thumbnail == embed.thumbnail,
        r.color == embed.color,
        r.timestamp == embed.timestamp,
        fields_view(r.fields@) == fields_view(embed.fields@) + season_fields(opt_season(season), game_mode_name@),
{
    let mut e = embed;
    if let Some(season) = season {
        let ghost start = fields_view(e.fields@);
        let ghost gm = game_mode_name@;
        let ghost name_part: Seq<FieldView> = match season.ranking_name_spec() {
            Some(n) => seq![("Current "@ + gm + " Rank"@, n, true)],
            None => Seq::empty(),
        };
        let ghost value_part: Seq<FieldView> = match season.ranking_spec() {
            Some(v) => seq![("Current "@ + gm + " MMR"@, decimal(v as nat), true)],
            None => Seq::empty(),
        };
        if let Some(name) = season.ranking_rank_name() {
            e = e.field(concat3("Current ", game_mode_name, " Rank"), String::from_str(name), true);
        }
        assert(fields_view(e.fields@) =~= start + name_part);
        if let Some(value) = season.ranking_value() {
            e = e.field(concat3("Current ", game_mode_name, " MMR"), u64_to_decimal(value as u64), true);
        }
        assert(fields_view(e.fields@) =~= start + name_part + value_part);
        e = e.field(
            concat3("Seasonal ", game_mode_name, " K/D"),
            String::from_str(season.stats.kd_ratio.two_decimals.as_str()),
            true,
        );
        e = e.field(
            concat3("Seasonal ", game_mode_name, " Win %"),
            String::from_str(season.stats.win_percentage.two_decimals.as_str()),
            true,
        );
        e = e.field(
            concat3("Seasonal # of ", game_mode_name, " Matches"),
            u64_to_decimal(season.matches_played_value()),
            true,
        );
        e = e.field(String::from_str(""), String::from_str(""), false);
        assert(fields_view(e.fields@) =~= start + season_fields(opt_season(Some(season)), gm));
    }
    e
}

/// R6Tracker stats for a user.
#[derive(Debug)]
pub struct Stats {
    profile: UserData,
}

impl Stats {
    /// The profile these stats present.
    pub closed spec fn profile_spec(&self) -> UserData {
        self.profile
    }

    /// The colour an embed of this profile takes: that of the current ranked
    /// season when it parses, else the colour `old`.
    pub open spec fn embed_color(&self, old: Option<u32>) -> Option<u32> {
        let p = self.profile_spec();
        match first_season_in_mode(p.segments@, p.metadata.current_season, ranked_mode()) {
            Some(s) => match parse_hex_color_spec(s.metadata.color@) {
                Some(c) => Some(c),
                None => old,
            },
            None => old,
        }
    }

    /// The thumbnail an embed of this profile takes: the rank image of the
    /// current ranked season when there is one, else `old`.
    pub open spec fn embed_thumbnail(&self, old: Option<String>) -> Option<Seq<char>> {
        let p = self.profile_spec();
        match first_season_in_mode(p.segments@, p.metadata.current_season, ranked_mode()) {
            Some(s) => match s.stats.rank_points {
                Some(rp) => Some(rp.metadata.image_url@),
                None => crate::text::opt_string_view(old),
            },
            None => crate::text::opt_string_view(old),
        }
    }

    /// Populate an embed with data.
    pub fn populate_embed(&self, embed: EmbedPlan) -> (r: EmbedPlan)
        ensures
            r.title matches Some(t) && t@ == self.profile_spec().platform_info.platform_user_handle@,
            r.image matches Some(i) && i@ == self.profile_spec().platform_info.avatar_url@,
            r.url == embed.url,
            r.timestamp == embed.timestamp,
            r.color == self.embed_color(embed.color),
            crate::text::opt_string_view(r.thumbnail) == self.embed_thumbnail(embed.thumbnail),
            fields_view(r.fields@) == fields_view(embed.fields@) + profile_fields(self.profile_spec()),
    {
        let p = &self.profile;
        let ghost start = fields_view(embed.fields@);
        let mut e = embed.title(String::from_str(p.platform_info.platform_user_handle.as_str()));
        e = e.image(String::from_str(p.platform_info.avatar_url.as_str()));
        e = push_header(e, p);
        e = push_best(e, p);
        e = push_overview(e, p);
        e = push_ranked_game_mode(e, p);
        e = push_current_seasons(e, p);

        match p.get_current_ranked_season() {
            Some(season) => match season.color_u32() {
                Some(color) => {
                    e = e.color(color);
                },
                None => {},
            },
            None => {},
        }

        if let Some(thumbnail) = p.current_rank_points_image() {
            e = e.thumbnail(String::from_str(thumbnail));
        }
        assert(fields_view(e.fields@) =~= start + profile_fields(self.profile_spec()));
        e
    }
}

/// What a profile lookup yields: the stats of a found profile, nothing when
/// the API says the user has no data, and the API's errors otherwise.
pub fn stats_from_response(response: ApiResponse<UserData>) -> (r: Result<Option<Stats>, InvalidApiResponseError>)
    ensures
        match response {
            ApiResponse::Valid(profile) => r matches Ok(Some(s)) && s.profile_spec() == profile,
            ApiResponse::Invalid(err) => if err.is_missing_spec() {
                r matches Ok(None)
            } else {
                r matches Err(e) && e == err
            },
        },
{
    match response.into_result() {
        Ok(profile) => Ok(Some(Stats { profile })),
        Err(error) => {
            if error.is_missing() {
                Ok(None)
            } else {
                Err(error)
            }
        },
    }
}

/// The reply to a stats lookup that did not fail.
#[derive(Debug)]
pub enum StatsReply {
    /// An embed presenting the stats.
    Embed(EmbedPlan),
    /// A text message.
    Content(&'static str),
}

/// The reply for a found profile is an embed presenting it; for a user
/// without data it is a message saying so.
pub fn stats_reply(stats: Option<&Stats>) -> (r: StatsReply)
    ensures
        match stats {
            Some(s) => r matches StatsReply::Embed(e) && fields_view(e.fields@) == profile_fields(s.profile_spec())
                && (e.title matches Some(t) && t@ == s.profile_spec().platform_info.platform_user_handle@)
                && (e.image matches Some(i) && i@ == s.profile_spec().platform_info.avatar_url@)
                && e.url is None
                && e.timestamp is None
                && e.color == s.embed_color(None)
                && crate::text::opt_string_view(e.thumbnail) == s.embed_thumbnail(None),
            None => r matches StatsReply::Content(c) && c@ == "User does not exist or has not played R6 Siege."@,
        },
{
    match stats {
        Some(s) => {
            let blank = EmbedPlan::new();
            assert(fields_view(blank.fields@) =~= Seq::<FieldView>::empty());
            let e = s.populate_embed(blank);
            StatsReply::Embed(e)
        },
        None => StatsReply::Content("User does not exist or has not played R6 Siege."),
    }
}

} // verus!
