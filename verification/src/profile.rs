//! A user's R6Tracker profile: its segments and the lookups over them.
use vstd::prelude::*;
use crate::hex::{parse_hex_color, parse_hex_color_spec};
use crate::text::{opt_str_view, opt_string_view, str_eq};

verus! {

/// A statistic the service reports with two decimals, held as that text.
#[derive(Debug)]
pub struct NumberPrecision2Stat {
    /// The value written with two decimals, as in `1.05`.
    pub two_decimals: String,
}

/// A percentage statistic, held as the text it is shown with (two decimals).
#[derive(Debug)]
pub struct NumberPercentageStat {
    /// The value written with two decimals, as in `51.30`.
    pub two_decimals: String,
}

/// Lifetime statistics.
#[derive(Debug)]
pub struct SegmentOverviewStats {
    pub kd_ratio: NumberPrecision2Stat,
    pub win_percentage: NumberPercentageStat,
}

/// The lifetime overview segment.
#[derive(Debug)]
pub struct SegmentOverview {
    pub stats: SegmentOverviewStats,
}

/// The attributes of a game mode segment.
#[derive(Debug)]
pub struct SegmentGameModeAttributes {
    /// The game mode
    pub game_mode: String,
}

/// Lifetime statistics of one game mode.
#[derive(Debug)]
pub struct SegmentGameModeStats {
    pub kd_ratio: NumberPrecision2Stat,
    pub win_percentage: NumberPercentageStat,
}

/// A game mode segment.
#[derive(Debug)]
pub struct SegmentGameMode {
    pub attributes: SegmentGameModeAttributes,
    pub stats: SegmentGameModeStats,
}

/// The game mode name of ranked play.
pub open spec fn ranked_mode() -> Seq<char> {
    "pvp_ranked"@
}

/// The game mode name of casual play.
pub open spec fn casual_mode() -> Seq<char> {
    "pvp_casual"@
}

/// The game mode name of unranked play.
pub open spec fn unranked_mode() -> Seq<char> {
    "pvp_standard"@
}

impl SegmentGameMode {
    /// Returns `true` if this is Ranked.
    pub fn is_ranked(&self) -> (r: bool)
        ensures
            r == (self.attributes.game_mode@ == ranked_mode()),
    {
        str_eq(self.attributes.game_mode.as_str(), "pvp_ranked")
    }
}

/// Profile metadata.
#[derive(Debug)]
pub struct Metadata {
    pub current_season: u16,
    pub clearance_level: u32,
}

/// The attributes of a season segment.
#[derive(Debug)]
pub struct SegmentSeasonAttributes {
    /// The season number
    pub season: u16,
    /// The game mode
    pub game_mode: String,
}

/// The metadata of a season segment.
#[derive(Debug)]
pub struct SegmentSeasonMetadata {
    /// The hex color of this season.
    pub color: String,
}

/// The metadata of an MMR statistic.
#[derive(Debug)]
pub struct MmrStatMetadata {
    pub image_url: String,
    pub name: Option<String>,
}

/// An MMR statistic.
#[derive(Debug)]
pub struct MmrStat {
    pub value: Option<u32>,
    pub metadata: MmrStatMetadata,
}

/// The metadata of a rank points statistic.
#[derive(Debug)]
pub struct RankPointsStatMetadata {
    pub image_url: String,
    pub name: Option<String>,
}

/// A rank points statistic.
#[derive(Debug)]
pub struct RankPointsStat {
    pub value: Option<u32>,
    pub metadata: RankPointsStatMetadata,
}

/// A count.
#[derive(Debug)]
pub struct NumberStat {
    pub value: u64,
}

/// The statistics of one season in one game mode.
#[derive(Debug)]
pub struct SegmentSeasonStats {
    pub mmr: Option<MmrStat>,
    pub max_mmr: Option<MmrStat>,
    pub rank_points: Option<RankPointsStat>,
    pub max_rank_points: Option<RankPointsStat>,
    pub kd_ratio: NumberPrecision2Stat,
    pub win_percentage: NumberPercentageStat,
    pub matches_played: NumberStat,
}

/// A season segment.
#[derive(Debug)]
pub struct SegmentSeason {
    pub attributes: SegmentSeasonAttributes,
    pub metadata: SegmentSeasonMetadata,
    pub stats: SegmentSeasonStats,
}

/// The value of an optional MMR statistic.
pub open spec fn mmr_value_of(stat: Option<MmrStat>) -> Option<u32> {
    match stat {
        Some(s) => s.value,
        None => None,
    }
}

/// The value of an optional rank points statistic.
pub open spec fn rank_points_value_of(stat: Option<RankPointsStat>) -> Option<u32> {
    match stat {
        Some(s) => s.value,
        None => None,
    }
}

/// The rank name of an optional MMR statistic.
pub open spec fn mmr_name_of(stat: Option<MmrStat>) -> Option<Seq<char>> {
    match stat {
        Some(s) => opt_string_view(s.metadata.name),
        None => None,
    }
}

/// The rank name of an optional rank points statistic.
pub open spec fn rank_points_name_of(stat: Option<RankPointsStat>) -> Option<Seq<char>> {
    match stat {
        Some(s) => opt_string_view(s.metadata.name),
        None => None,
    }
}

/// The first of two options that is present.
pub open spec fn or_else<A>(a: Option<A>, b: Option<A>) -> Option<A> {
    match a {
        Some(x) => Some(x),
        None => b,
    }
}

fn mmr_value_exec(stat: &Option<MmrStat>) -> (r: Option<u32>)
    ensures
        r == mmr_value_of(*stat),
{
    match stat {
        Some(s) => s.value,
        None => None,
    }
}

fn rank_points_value_exec(stat: &Option<RankPointsStat>) -> (r: Option<u32>)
    ensures
        r == rank_points_value_of(*stat),
{
    match stat {
        Some(s) => s.value,
        None => None,
    }
}

fn mmr_name_exec(stat: &Option<MmrStat>) -> (r: Option<&str>)
    ensures
        opt_str_view(r) == mmr_name_of(*stat),
{
    match stat {
        Some(s) => match &s.metadata.name {
            Some(n) => Some(n.as_str()),
            None => None,
        },
        None => None,
    }
}

fn rank_points_name_exec(stat: &Option<RankPointsStat>) -> (r: Option<&str>)
    ensures
        opt_str_view(r) == rank_points_name_of(*stat),
{
    match stat {
        Some(s) => match &s.metadata.name {
            Some(n) => Some(n.as_str()),
            None => None,
        },
        None => None,
    }
}

impl SegmentSeason {
    /// The best ranking of this season: the max MMR, else the max rank points.
    pub open spec fn max_ranking_spec(self) -> Option<u32> {
        or_else(mmr_value_of(self.stats.max_mmr), rank_points_value_of(self.stats.max_rank_points))
    }

    /// The current ranking of this season: the MMR, else the rank points.
    pub open spec fn ranking_spec(self) -> Option<u32> {
        or_else(mmr_value_of(self.stats.mmr), rank_points_value_of(self.stats.rank_points))
    }

    /// The name of the best rank: the max MMR rank, else the max rank points rank.
    pub open spec fn max_ranking_name_spec(self) -> Option<Seq<char>> {
        or_else(mmr_name_of(self.stats.max_mmr), rank_points_name_of(self.stats.max_rank_points))
    }

    /// The name of the current rank: the MMR rank, else the rank points rank.
    pub open spec fn ranking_name_spec(self) -> Option<Seq<char>> {
        or_else(mmr_name_of(self.stats.mmr), rank_points_name_of(self.stats.rank_points))
    }

    /// Returns `true` if this is Ranked.
    pub fn is_ranked(&self) -> (r: bool)
        ensures
            r == (self.attributes.game_mode@ == ranked_mode()),
    {
        str_eq(self.attributes.game_mode.as_str(), "pvp_ranked")
    }

    /// Returns `true` if this is Casual.
    pub fn is_casual(&self) -> (r: bool)
        ensures
            r == (self.attributes.game_mode@ == casual_mode()),
    {
        str_eq(self.attributes.game_mode.as_str(), "pvp_casual")
    }

    /// Returns `true` if this is Unranked.
    pub fn is_unranked(&self) -> (r: bool)
        ensures
            r == (self.attributes.game_mode@ == unranked_mode()),
    {
        str_eq(self.attributes.game_mode.as_str(), "pvp_standard")
    }

    /// Tries to parse this season's hex color as a u32.
    pub fn color_u32(&self) -> (r: Option<u32>)
        ensures
            r == parse_hex_color_spec(self.metadata.color@),
    {
        parse_hex_color(self.metadata.color.as_str())
    }

    /// Get the max mmr value.
    pub fn max_mmr_value(&self) -> (r: Option<u32>)
        ensures
            r == mmr_value_of(self.stats.max_mmr),
    {
        mmr_value_exec(&self.stats.max_mmr)
    }

    /// Get the max rp value.
    pub fn max_rank_points_value(&self) -> (r: Option<u32>)
        ensures
            r == rank_points_value_of(self.stats.max_rank_points),
    {
        rank_points_value_exec(&self.stats.max_rank_points)
    }

    /// Get the max ranking value, mmr or rp.
    pub fn max_ranking_value(&self) -> (r: Option<u32>)
        ensures
            r == self.max_ranking_spec(),
    {
        match self.max_mmr_value() {
            Some(v) => Some(v),
            None => self.max_rank_points_value(),
        }
    }

    /// Get the max mmr rank name.
    pub fn max_mmr_rank_name(&self) -> (r: Option<&str>)
        ensures
            opt_str_view(r) == mmr_name_of(self.stats.max_mmr),
    {
        mmr_name_exec(&self.stats.max_mmr)
    }

    /// Get the max rp rank name.
    pub fn max_rank_points_rank_name(&self) -> (r: Option<&str>)
        ensures
            opt_str_view(r) == rank_points_name_of(self.stats.max_rank_points),
    {
        rank_points_name_exec(&self.stats.max_rank_points)
    }

    /// Get the max ranking name, mmr or rp.
    pub fn max_ranking_rank_name(&self) -> (r: Option<&str>)
        ensures
            opt_str_view(r) == self.max_ranking_name_spec(),
    {
        match self.max_mmr_rank_name() {
            Some(n) => Some(n),
            None => self.max_rank_points_rank_name(),
        }
    }

    /// Get current mmr value.
    pub fn mmr_value(&self) -> (r: Option<u32>)
        ensures
            r == mmr_value_of(self.stats.mmr),
    {
        mmr_value_exec(&self.stats.mmr)
    }

    /// Get current ranking points value.
    pub fn ranking_points_value(&self) -> (r: Option<u32>)
        ensures
            r == rank_points_value_of(self.stats.rank_points),
    {
        rank_points_value_exec(&self.stats.rank_points)
    }

    /// Get current ranking value, mmr or rp.
    pub fn ranking_value(&self) -> (r: Option<u32>)
        ensures
            r == self.ranking_spec(),
    {
        match self.mmr_value() {
            Some(v) => Some(v),
            None => self.ranking_points_value(),
        }
    }

    /// Get current mmr rank name.
    pub fn mmr_rank_name(&self) -> (r: Option<&str>)
        ensures
            opt_str_view(r) == mmr_name_of(self.stats.mmr),
    {
        mmr_name_exec(&self.stats.mmr)
    }

    /// Get current ranking rank name.
    pub fn ranking_points_rank_name(&self) -> (r: Option<&str>)
        ensures
            opt_str_view(r) == rank_points_name_of(self.stats.rank_points),
    {
        rank_points_name_exec(&self.stats.rank_points)
    }

    /// Get current ranking name, mmr or rp.
    pub fn ranking_rank_name(&self) -> (r: Option<&str>)
        ensures
            opt_str_view(r) == self.ranking_name_spec(),
    {
        match self.mmr_rank_name() {
            Some(n) => Some(n),
            None => self.ranking_points_rank_name(),
        }
    }

    /// Get the # of matches played.
    pub fn matches_played_value(&self) -> (r: u64)
        ensures
            r == self.stats.matches_played.value,
    {
        self.stats.matches_played.value
    }
}

/// A segment of a profile.
#[derive(Debug)]
pub enum Segment {
    Overview(SegmentOverview),
    GameMode(Box<SegmentGameMode>),
    Season(Box<SegmentSeason>),
}

impl Segment {
    /// The overview, if this is one.
    pub open spec fn overview_spec(self) -> Option<SegmentOverview> {
        match self {
            Segment::Overview(v) => Some(v),
            _ => None,
        }
    }

    /// The game mode, if this is one.
    pub open spec fn game_mode_spec(self) -> Option<SegmentGameMode> {
        match self {
            Segment::GameMode(v) => Some(*v),
            _ => None,
        }
    }

    /// The season, if this is one.
    pub open spec fn season_spec(self) -> Option<SegmentSeason> {
        match self {
            Segment::Season(v) => Some(*v),
            _ => None,
        }
    }

    /// Get a ref to the SegmentOverview if it is an overview.
    pub fn overview_ref(&self) -> (r: Option<&SegmentOverview>)
        ensures
            match r {
                Some(v) => self.overview_spec() == Some(*v),
                None => self.overview_spec() is None,
            },
    {
        match self {
            Segment::Overview(value) => Some(value),
            _ => None,
        }
    }

    /// Get a ref to the SegmentGameMode if it is a game mode.
    pub fn game_mode_ref(&self) -> (r: Option<&SegmentGameMode>)
        ensures
            match r {
                Some(v) => self.game_mode_spec() == Some(*v),
                None => self.game_mode_spec() is None,
            },
    {
        match self {
            Segment::GameMode(value) => Some(&**value),
            _ => None,
        }
    }

    /// Get a ref to the SegmentSeason if it is a season.
    pub fn season_ref(&self) -> (r: Option<&SegmentSeason>)
        ensures
            match r {
                Some(v) => self.season_spec() == Some(*v),
                None => self.season_spec() is None,
            },
    {
        match self {
            Segment::Season(value) => Some(&**value),
            _ => None,
        }
    }
}


/// Platform details of a profile.
#[derive(Debug)]
pub struct UserDataPlatformInfo {
    pub platform_user_handle: String,
    pub avatar_url: String,
}

/// Account details of a profile.
#[derive(Debug)]
pub struct UserDataUserInfo {
    pub is_suspicious: Option<bool>,
}

/// A user's profile.
#[derive(Debug)]
pub struct UserData {
    pub metadata: Metadata,
    pub segments: Vec<Segment>,
    pub platform_info: UserDataPlatformInfo,
    pub user_info: UserDataUserInfo,
}

/// Whether `seg` is the season `season` in game mode `mode`.
pub open spec fn is_season_in_mode(seg: Segment, season: u16, mode: Seq<char>) -> bool {
    match seg {
        Segment::Season(s) => s.attributes.game_mode@ == mode && s.attributes.season == season,
        _ => false,
    }
}

/// The first segment of `segs` that is the season `season` in game mode `mode`.
pub open spec fn first_season_in_mode(segs: Seq<Segment>, season: u16, mode: Seq<char>) -> Option<SegmentSeason>
    decreases segs.len(),
{
    if segs.len() == 0 {
        None
    } else if is_season_in_mode(segs[0], season, mode) {
        segs[0].season_spec()
    } else {
        first_season_in_mode(segs.drop_first(), season, mode)
    }
}

/// Whether `seg` is the lifetime segment of ranked play.
pub open spec fn is_ranked_game_mode(seg: Segment) -> bool {
    match seg {
        Segment::GameMode(g) => g.attributes.game_mode@ == ranked_mode(),
        _ => false,
    }
}

/// The first lifetime segment of ranked play.
pub open spec fn first_ranked_game_mode(segs: Seq<Segment>) -> Option<SegmentGameMode>
    decreases segs.len(),
{
    if segs.len() == 0 {
        None
    } else if is_ranked_game_mode(segs[0]) {
        segs[0].game_mode_spec()
    } else {
        first_ranked_game_mode(segs.drop_first())
    }
}

/// The first overview segment.
pub open spec fn first_overview(segs: Seq<Segment>) -> Option<SegmentOverview>
    decreases segs.len(),
{
    if segs.len() == 0 {
        None
    } else if segs[0].overview_spec() is Some {
        segs[0].overview_spec()
    } else {
        first_overview(segs.drop_first())
    }
}

/// The best ranking of a ranked season segment; `None` for every other segment.
pub open spec fn ranked_key(seg: Segment) -> Option<u32> {
    match seg {
        Segment::Season(s) => if s.attributes.game_mode@ == ranked_mode() {
            s.max_ranking_spec()
        } else {
            None
        },
        _ => None,
    }
}

/// Whether segment `i` has the highest best ranking among the ranked seasons,
/// and no later ranked season has as high a one.
pub open spec fn is_last_max(segs: Seq<Segment>, i: int) -> bool {
    &&& 0 <= i < segs.len()
    &&& ranked_key(segs[i]) is Some
    &&& forall|j: int|
        0 <= j < segs.len() && (#[trigger] ranked_key(segs[j])) is Some ==> ranked_key(segs[j])->0
            <= ranked_key(segs[i])->0
    &&& forall|j: int|
        i < j < segs.len() && (#[trigger] ranked_key(segs[j])) is Some ==> ranked_key(segs[j])->0
            < ranked_key(segs[i])->0
}

/// The ranked season in which the best ranking was reached; the last such
/// season when several share it.
pub open spec fn max_ranked_season_spec(segs: Seq<Segment>) -> Option<SegmentSeason> {
    if exists|i: int| is_last_max(segs, i) {
        segs[choose|i: int| is_last_max(segs, i)].season_spec()
    } else {
        None
    }
}

proof fn lemma_last_max_unique(segs: Seq<Segment>, i: int, k: int)
    requires
        is_last_max(segs, i),
        is_last_max(segs, k),
    ensures
        i == k,
{
    if i < k {
        assert(ranked_key(segs[k]) is Some);
    } else if k < i {
        assert(ranked_key(segs[i]) is Some);
    }
}

proof fn lemma_first_season_skip(segs: Seq<Segment>, i: int, season: u16, mode: Seq<char>)
    requires
        0 <= i < segs.len(),
    ensures
        first_season_in_mode(segs.skip(i), season, mode) == if is_season_in_mode(segs[i], season, mode) {
            segs[i].season_spec()
        } else {
            first_season_in_mode(segs.skip(i + 1), season, mode)
        },
{
    assert(segs.skip(i)[0] == segs[i]);
    assert(segs.skip(i).drop_first() =~= segs.skip(i + 1));
}

/// The characterisation of the best ranked season: there is one exactly when
/// some ranked season has a best ranking, it is ranked, it has a best ranking,
/// no ranked season has a higher one, and no later ranked season has as high a one.
pub proof fn law_max_ranked_season(segs: Seq<Segment>)
    ensures
        max_ranked_season_spec(segs) is Some <==> exists|j: int|
            0 <= j < segs.len() && (#[trigger] ranked_key(segs[j])) is Some,
        max_ranked_season_spec(segs) is Some ==> exists|i: int|
            is_last_max(segs, i) && segs[i].season_spec() == max_ranked_season_spec(segs),
{
    if exists|j: int| 0 <= j < segs.len() && (#[trigger] ranked_key(segs[j])) is Some {
        let best = last_max_of_prefix(segs, segs.len() as int);
        lemma_last_max_of_prefix(segs, segs.len() as int);
        assert(is_last_max(segs, best)) by {
            assert(segs.take(segs.len() as int) =~= segs);
        }
        let c = choose|i: int| is_last_max(segs, i);
        lemma_last_max_unique(segs, best, c);
        assert(segs[best].season_spec() is Some);
    } else {
        if exists|i: int| is_last_max(segs, i) {
            let c = choose|i: int| is_last_max(segs, i);
            assert(ranked_key(segs[c]) is Some);
        }
    }
}

/// The last index holding the highest best ranking among the first `n` segments,
/// or -1 when none of them is a ranked season with a ranking.
pub open spec fn last_max_of_prefix(segs: Seq<Segment>, n: int) -> int
    decreases n,
{
    if n <= 0 {
        -1
    } else {
        let prev = last_max_of_prefix(segs, n - 1);
        match ranked_key(segs[n - 1]) {
            None => prev,
            Some(k) => if prev < 0 || ranked_key(segs[prev])->0 <= k {
                n - 1
            } else {
                prev
            },
        }
    }
}

proof fn lemma_last_max_of_prefix(segs: Seq<Segment>, n: int)
    requires
        0 <= n <= segs.len(),
    ensures
        ({
            let b = last_max_of_prefix(segs, n);
            &&& -1 <= b < n
            &&& b < 0 <==> forall|j: int| 0 <= j < n ==> (#[trigger] ranked_key(segs[j])) is None
            &&& b >= 0 ==> is_last_max(segs.take(n), b)
        }),
    decreases n,
{
    if n > 0 {
        lemma_last_max_of_prefix(segs, n - 1);
        let prev = last_max_of_prefix(segs, n - 1);
        let p = segs.take(n - 1);
        let q = segs.take(n);
        assert forall|j: int| 0 <= j < n - 1 implies q[j] == p[j] by {}
        assert(q[n - 1] == segs[n - 1]);
        let b = last_max_of_prefix(segs, n);
        if b >= 0 {
            assert forall|j: int| 0 <= j < q.len() && (#[trigger] ranked_key(q[j])) is Some implies ranked_key(q[j])->0 <= ranked_key(q[b])->0 by {
                if j < n - 1 {
                    assert(ranked_key(p[j]) is Some);
                }
            }
            assert forall|j: int| b < j < q.len() && (#[trigger] ranked_key(q[j])) is Some implies ranked_key(q[j])->0 < ranked_key(q[b])->0 by {
                if j < n - 1 {
                    assert(ranked_key(p[j]) is Some);
                }
            }
        }
        if b < 0 {
            assert forall|j: int| 0 <= j < n implies (#[trigger] ranked_key(segs[j])) is None by {
                if j < n - 1 {
                    assert(ranked_key(segs[j]) is None);
                }
            }
        }
    } else {
    }
}

/// The current season of a mode is a season segment of that mode and number,
/// and there is one exactly when some segment is.
pub proof fn law_first_season_matches(segs: Seq<Segment>, season: u16, mode: Seq<char>)
    ensures
        first_season_in_mode(segs, season, mode) matches Some(s) ==> s.attributes.season == season
            && s.attributes.game_mode@ == mode,
        first_season_in_mode(segs, season, mode) is Some <==> exists|i: int|
            0 <= i < segs.len() && #[trigger] is_season_in_mode(segs[i], season, mode),
    decreases segs.len(),
{
    if segs.len() > 0 {
        law_first_season_matches(segs.drop_first(), season, mode);
        if exists|i: int| 0 <= i < segs.len() && #[trigger] is_season_in_mode(segs[i], season, mode) {
            let i = choose|i: int| 0 <= i < segs.len() && #[trigger] is_season_in_mode(segs[i], season, mode);
            if i > 0 {
                assert(is_season_in_mode(segs.drop_first()[i - 1], season, mode));
            }
        }
        if exists|i: int| 0 <= i < segs.drop_first().len() && #[trigger] is_season_in_mode(segs.drop_first()[i], season, mode) {
            let i = choose|i: int| 0 <= i < segs.drop_first().len() && #[trigger] is_season_in_mode(segs.drop_first()[i], season, mode);
            assert(is_season_in_mode(segs[i + 1], season, mode));
        }
    }
}

impl UserData {
    fn find_current_season(&self, mode: &str) -> (r: Option<&SegmentSeason>)
        ensures
            match r {
                Some(s) => first_season_in_mode(self.segments@, self.metadata.current_season, mode@)
                    == Some(*s),
                None => first_season_in_mode(self.segments@, self.metadata.current_season, mode@) is None,
            },
    {
        let mut i: usize = 0;
        assert(self.segments@.skip(0) =~= self.segments@);
        while i < self.segments.len()
            invariant
                i <= self.segments@.len(),
                first_season_in_mode(self.segments@, self.metadata.current_season, mode@)
                    == first_season_in_mode(self.segments@.skip(i as int), self.metadata.current_season, mode@),
            decreases self.segments@.len() - i,
        {
            proof {
                lemma_first_season_skip(self.segments@, i as int, self.metadata.current_season, mode@);
            }
            if let Some(season) = self.segments[i].season_ref() {
                if str_eq(season.attributes.game_mode.as_str(), mode) && season.attributes.season
                    == self.metadata.current_season {
                    return Some(season);
                }
            }
            i = i + 1;
        }
        assert(self.segments@.skip(i as int).len() == 0);
        None
    }

    /// Get the current ranked season.
    pub fn get_current_ranked_season(&self) -> (r: Option<&SegmentSeason>)
        ensures
            match r {
                Some(s) => first_season_in_mode(self.segments@, self.metadata.current_season, ranked_mode())
                    == Some(*s),
                None => first_season_in_mode(self.segments@, self.metadata.current_season, ranked_mode()) is None,
            },
    {
        self.find_current_season("pvp_ranked")
    }

    /// Get the current unranked season.
    pub fn get_current_unranked_season(&self) -> (r: Option<&SegmentSeason>)
        ensures
            match r {
                Some(s) => first_season_in_mode(self.segments@, self.metadata.current_season, unranked_mode())
                    == Some(*s),
                None => first_season_in_mode(self.segments@, self.metadata.current_season, unranked_mode()) is None,
            },
    {
        self.find_current_season("pvp_standard")
    }

    /// Get the current casual season.
    pub fn get_current_casual_season(&self) -> (r: Option<&SegmentSeason>)
        ensures
            match r {
                Some(s) => first_season_in_mode(self.segments@, self.metadata.current_season, casual_mode())
                    == Some(*s),
                None => first_season_in_mode(self.segments@, self.metadata.current_season, casual_mode()) is None,
            },
    {
        self.find_current_season("pvp_casual")
    }

    /// Get the ranked season where the user attained their max ranking, either mmr or rp.
    pub fn get_max_ranked_season(&self) -> (r: Option<&SegmentSeason>)
        ensures
            match r {
                Some(s) => max_ranked_season_spec(self.segments@) == Some(*s),
                None => max_ranked_season_spec(self.segments@) is None,
            },
    {
        let mut best: Option<(usize, u32)> = None;
        let mut i: usize = 0;
        while i < self.segments.len()
            invariant
                i <= self.segments@.len(),
                match best {
                    None => last_max_of_prefix(self.segments@, i as int) < 0,
                    Some((b, k)) => last_max_of_prefix(self.segments@, i as int) == b
                        && ranked_key(self.segments@[b as int]) == Some(k),
                },
            decreases self.segments@.len() - i,
        {
            proof {
                lemma_last_max_of_prefix(self.segments@, i as int);
            }
            if let Some(season) = self.segments[i].season_ref() {
                if season.is_ranked() {
                    if let Some(k) = season.max_ranking_value() {
                        match best {
                            None => {
                                best = Some((i, k));
                            },
                            Some((_, bk)) => {
                                if bk <= k {
                                    best = Some((i, k));
                                }
                            },
                        }
                    }
                }
            }
            i = i + 1;
        }
        proof {
            lemma_last_max_of_prefix(self.segments@, i as int);
            law_max_ranked_season(self.segments@);
            assert(self.segments@.take(i as int) =~= self.segments@);
        }
        match best {
            None => {
                proof {
                    if exists|c: int| is_last_max(self.segments@, c) {
                        let c = choose|c: int| is_last_max(self.segments@, c);
                        assert(ranked_key(self.segments@[c]) is Some);
                    }
                }
                None
            },
            Some((b, _)) => {
                proof {
                    let c = choose|c: int| is_last_max(self.segments@, c);
                    lemma_last_max_unique(self.segments@, b as int, c);
                }
                self.segments[b].season_ref()
            },
        }
    }

    /// Get the image url for the current rank of this user.
    pub fn current_rank_points_image(&self) -> (r: Option<&str>)
        ensures
            opt_str_view(r) == match first_season_in_mode(self.segments@, self.metadata.current_season, ranked_mode()) {
                Some(s) => match s.stats.rank_points {
                    Some(rp) => Some(rp.metadata.image_url@),
                    None => None,
                },
                None => None,
            },
    {
        match self.get_current_ranked_season() {
            Some(season) => match &season.stats.rank_points {
                Some(rp) => Some(rp.metadata.image_url.as_str()),
                None => None,
            },
            None => None,
        }
    }

    /// Get the lifetime ranked stats.
    pub fn get_ranked_game_mode(&self) -> (r: Option<&SegmentGameMode>)
        ensures
            match r {
                Some(g) => first_ranked_game_mode(self.segments@) == Some(*g),
                None => first_ranked_game_mode(self.segments@) is None,
            },
    {
        let mut i: usize = 0;
        assert(self.segments@.skip(0) =~= self.segments@);
        while i < self.segments.len()
            invariant
                i <= self.segments@.len(),
                first_ranked_game_mode(self.segments@) == first_ranked_game_mode(self.segments@.skip(i as int)),
            decreases self.segments@.len() - i,
        {
            assert(self.segments@.skip(i as int)[0] == self.segments@[i as int]);
            assert(self.segments@.skip(i as int).drop_first() =~= self.segments@.skip(i + 1));
            if let Some(game_mode) = self.segments[i].game_mode_ref() {
                if game_mode.is_ranked() {
                    return Some(game_mode);
                }
            }
            i = i + 1;
        }
        None
    }

    /// Get overview stats.
    pub fn get_overview(&self) -> (r: Option<&SegmentOverview>)
        ensures
            match r {
                Some(o) => first_overview(self.segments@) == Some(*o),
                None => first_overview(self.segments@) is None,
            },
    {
        let mut i: usize = 0;
        assert(self.segments@.skip(0) =~= self.segments@);
        while i < self.segments.len()
            invariant
                i <= self.segments@.len(),
                first_overview(self.segments@) == first_overview(self.segments@.skip(i as int)),
            decreases self.segments@.len() - i,
        {
            assert(self.segments@.skip(i as int)[0] == self.segments@[i as int]);
            assert(self.segments@.skip(i as int).drop_first() =~= self.segments@.skip(i + 1));
            if let Some(overview) = self.segments[i].overview_ref() {
                return Some(overview);
            }
            i = i + 1;
        }
        None
    }
}

} // verus!
