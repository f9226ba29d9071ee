//! Canonical query text for the build-creator endpoint, and the names of the
//! buckets its win rates are reported under.

use vstd::prelude::*;
use vstd::string::StringExecFns;

use crate::text::{
    and_clause, dec_digits, dec_int, i64_to_dec, one_if, prefixed, spec_and_clause, str_views,
    u32_to_dec, u64_to_dec,
};

verus! {

/// The default statistical-significance threshold for this endpoint.
pub fn default_min_matches() -> (r: Option<u32>)
    ensures
        r == Some(50u32),
{
    Some(50)
}

/// Sorting options for items in the build creator.
#[derive(Debug, Clone, Copy, PartialEq, Eq, Structural, Hash)]
pub enum SortBy {
    /// Sort by weighted average win rate (descending) - default
    WinRate,
    /// Sort by total matches/popularity (descending)
    Popularity,
    /// Sort by average buy time (ascending - earliest purchases first)
    AvgBuyOrder,
}

impl Default for SortBy {
    fn default() -> (r: Self)
        ensures
            r == SortBy::WinRate,
    {
        SortBy::WinRate
    }
}

/// Timing mode for bucketing win rates.
#[derive(Debug, Clone, Copy, PartialEq, Eq, Structural, Hash)]
pub enum TimingMode {
    /// Bucket by net worth (5000, 10000, 15000, 20000) - default
    Networth,
    /// Bucket by game phase (0-5, 5-10, 10-20, 20-30, 30+ minutes)
    GameTime,
}

impl Default for TimingMode {
    fn default() -> (r: Self)
        ensures
            r == TimingMode::Networth,
    {
        TimingMode::Networth
    }
}

/// Validated query parameters of the build-creator endpoint.
#[derive(Debug, Clone, PartialEq, Eq, Hash)]
pub struct BuildCreatorQuery {
    /// Hero ID to get item stats for.
    pub hero_id: u32,
    /// Minimum number of matches for statistical significance.
    pub min_matches: Option<u32>,
    /// Filter matches based on their start time (Unix timestamp).
    pub min_unix_timestamp: Option<i64>,
    /// Filter matches based on their start time (Unix timestamp).
    pub max_unix_timestamp: Option<i64>,
    /// Filter matches based on the average badge level.
    pub min_average_badge: Option<u8>,
    /// Filter matches based on the average badge level.
    pub max_average_badge: Option<u8>,
    /// Sort items by: win_rate (default), popularity, or avg_buy_order
    pub sort_by: SortBy,
    /// Timing mode for winrate buckets: networth (default) or game_time
    pub timing_mode: TimingMode,
}

/// The human-readable key a bucket is reported under. In net-worth mode the
/// key is the bracket's lower bound in decimal; in game-time mode it is the
/// minute range of the phase.
pub open spec fn spec_bucket_key(mode: TimingMode, bucket: u32) -> Seq<char> {
    match mode {
        TimingMode::Networth => dec_digits(bucket as nat),
        TimingMode::GameTime => if bucket == 0 {
            "0-5"@
        } else if bucket == 1 {
            "5-10"@
        } else if bucket == 2 {
            "10-20"@
        } else if bucket == 3 {
            "20-30"@
        } else {
            "30+"@
        },
    }
}

/// Names the bucket a win rate is reported under.
pub fn bucket_key(mode: TimingMode, bucket: u32) -> (r: String)
    ensures
        r@ == spec_bucket_key(mode, bucket),
{
    match mode {
        TimingMode::Networth => u32_to_dec(bucket),
        TimingMode::GameTime => {
            let s: &'static str = match bucket {
                0 => "0-5",
                1 => "5-10",
                2 => "10-20",
                3 => "20-30",
                _ => "30+",
            };
            s.to_owned()
        },
    }
}

/// The match-level filters, in the order they appear in the query text.
pub open spec fn spec_info_filters(q: BuildCreatorQuery) -> Seq<Seq<char>> {
    one_if(
        q.min_unix_timestamp is Some,
        "start_time >= "@ + dec_int(q.min_unix_timestamp->0 as int),
    ) + one_if(
        q.max_unix_timestamp is Some,
        "start_time <= "@ + dec_int(q.max_unix_timestamp->0 as int),
    ) + one_if(
        q.min_average_badge is Some && q.min_average_badge->0 > 11,
        "average_badge_team0 >= "@ + dec_digits(q.min_average_badge->0 as nat)
            + " AND average_badge_team1 >= "@ + dec_digits(q.min_average_badge->0 as nat),
    ) + one_if(
        q.max_average_badge is Some && q.max_average_badge->0 < 116,
        "average_badge_team0 <= "@ + dec_digits(q.max_average_badge->0 as nat)
            + " AND average_badge_team1 <= "@ + dec_digits(q.max_average_badge->0 as nat),
    )
}

/// The grouping expression for the timing mode.
pub open spec fn spec_bucket_expr(mode: TimingMode) -> Seq<char> {
    match mode {
        TimingMode::Networth => "toUInt32(floor(net_worth_at_buy / 5000) * 5000)"@,
        TimingMode::GameTime => "toUInt32(CASE WHEN buy_time < 300 THEN 0 WHEN buy_time < 600 THEN 1 WHEN buy_time < 1200 THEN 2 WHEN buy_time < 1800 THEN 3 ELSE 4 END)"@,
    }
}

/// The extra selected column for the timing mode.
pub open spec fn spec_extra_select(mode: TimingMode) -> Seq<char> {
    match mode {
        TimingMode::Networth => ",coalesce(\n                arrayElementOrNull(\n                    stats.net_worth,\n                    arrayFirstIndex(ts -> ts >= it.game_time_s, stats.time_stamp_s) - 1\n                ), net_worth\n            ) AS net_worth_at_buy"@,
        TimingMode::GameTime => ""@,
    }
}

/// The significance threshold the query filters on: the parameter, or 50.
pub open spec fn spec_min_matches(q: BuildCreatorQuery) -> nat {
    (match q.min_matches {
        Some(m) => m,
        None => 50u32,
    }) as nat
}

/// The canonical query text for the given parameters.
pub open spec fn spec_build_query(q: BuildCreatorQuery) -> Seq<char> {
    "\nWITH\n    t_upgrades AS (SELECT id FROM items WHERE type = 'upgrade'),\n    t_matches AS (\n        SELECT match_id, start_time, duration_s\n        FROM match_info\n        WHERE match_mode IN ('Ranked', 'Unranked')"@
        + spec_and_clause(spec_info_filters(q))
        + "\n    ),\n    exploded_players AS (\n        SELECT\n            match_id,\n            it.item_id AS item_id,\n            won,\n            it.game_time_s AS buy_time,\n            it.sold_time_s AS sold_time\n            "@
        + spec_extra_select(q.timing_mode)
        + "\n        FROM match_player\n            ARRAY JOIN items AS it\n        WHERE match_id IN (SELECT match_id FROM t_matches)\n            AND it.item_id IN t_upgrades\n            AND it.game_time_s > 0\n            AND hero_id = "@
        + dec_digits(q.hero_id as nat) + "\n    )\nSELECT\n    item_id,\n    "@ + spec_bucket_expr(
        q.timing_mode,
    )
        + " AS bucket,\n    sum(won) AS wins,\n    sum(not won) AS losses,\n    wins + losses AS matches,\n    avg(buy_time) AS avg_buy_time_s,\n    avgIf(sold_time, sold_time > 0) AS avg_sell_time_s,\n    avgIf((sold_time / duration_s) * 100, sold_time > 0) AS avg_sell_time_relative,\n    countIf(sold_time > 0) AS sell_count\nFROM exploded_players\nINNER JOIN t_matches USING (match_id)\nGROUP BY item_id, bucket\nHAVING matches >= "@
        + dec_digits(spec_min_matches(q)) + "\nORDER BY item_id, bucket\n        "@
}

/// Builds the match-level filters.
fn info_filters(q: &BuildCreatorQuery) -> (r: Vec<String>)
    ensures
        str_views(r@) == spec_info_filters(*q),
{
    let mut fs: Vec<String> = Vec::new();
    if let Some(v) = q.min_unix_timestamp {
        let n = i64_to_dec(v);
        fs.push(prefixed("start_time >= ", n.as_str()));
    }
    if let Some(v) = q.max_unix_timestamp {
        let n = i64_to_dec(v);
        fs.push(prefixed("start_time <= ", n.as_str()));
    }
    if let Some(v) = q.min_average_badge {
        if v > 11 {
            let n = u64_to_dec(v as u64);
            let mut f = prefixed("average_badge_team0 >= ", n.as_str());
            f.append(" AND average_badge_team1 >= ");
            f.append(n.as_str());
            fs.push(f);
        }
    }
    if let Some(v) = q.max_average_badge {
        if v < 116 {
            let n = u64_to_dec(v as u64);
            let mut f = prefixed("average_badge_team0 <= ", n.as_str());
            f.append(" AND average_badge_team1 <= ");
            f.append(n.as_str());
            fs.push(f);
        }
    }
    proof {
        assert(str_views(fs@) =~= spec_info_filters(*q));
    }
    fs
}

/// Builds the canonical query text for the build-creator endpoint.
pub fn build_query(query: &BuildCreatorQuery) -> (r: String)
    ensures
        r@ == spec_build_query(*query),
{
    let info = info_filters(query);
    let info_sql = and_clause(&info);
    let hero_id_sql = u32_to_dec(query.hero_id);
    let min_matches: u32 = match query.min_matches {
        Some(m) => m,
        None => 50,
    };
    let min_matches_sql = u32_to_dec(min_matches);
    let bucket_expr: &'static str = match query.timing_mode {
        TimingMode::Networth => "toUInt32(floor(net_worth_at_buy / 5000) * 5000)",
        TimingMode::GameTime => "toUInt32(CASE WHEN buy_time < 300 THEN 0 WHEN buy_time < 600 THEN 1 WHEN buy_time < 1200 THEN 2 WHEN buy_time < 1800 THEN 3 ELSE 4 END)",
    };
    let extra_select: &'static str = match query.timing_mode {
        TimingMode::Networth => ",coalesce(\n                arrayElementOrNull(\n                    stats.net_worth,\n                    arrayFirstIndex(ts -> ts >= it.game_time_s, stats.time_stamp_s) - 1\n                ), net_worth\n            ) AS net_worth_at_buy",
        TimingMode::GameTime => "",
    };
    let mut r =
        "\nWITH\n    t_upgrades AS (SELECT id FROM items WHERE type = 'upgrade'),\n    t_matches AS (\n        SELECT match_id, start_time, duration_s\n        FROM match_info\n        WHERE match_mode IN ('Ranked', 'Unranked')".to_owned();
    r.append(info_sql.as_str());
    r.append(
        "\n    ),\n    exploded_players AS (\n        SELECT\n            match_id,\n            it.item_id AS item_id,\n            won,\n            it.game_time_s AS buy_time,\n            it.sold_time_s AS sold_time\n            ",
    );
    r.append(extra_select);
    r.append(
        "\n        FROM match_player\n            ARRAY JOIN items AS it\n        WHERE match_id IN (SELECT match_id FROM t_matches)\n            AND it.item_id IN t_upgrades\n            AND it.game_time_s > 0\n            AND hero_id = ",
    );
    r.append(hero_id_sql.as_str());
    r.append("\n    )\nSELECT\n    item_id,\n    ");
    r.append(bucket_expr);
    r.append(
        " AS bucket,\n    sum(won) AS wins,\n    sum(not won) AS losses,\n    wins + losses AS matches,\n    avg(buy_time) AS avg_buy_time_s,\n    avgIf(sold_time, sold_time > 0) AS avg_sell_time_s,\n    avgIf((sold_time / duration_s) * 100, sold_time > 0) AS avg_sell_time_relative,\n    countIf(sold_time > 0) AS sell_count\nFROM exploded_players\nINNER JOIN t_matches USING (match_id)\nGROUP BY item_id, bucket\nHAVING matches >= ",
    );
    r.append(min_matches_sql.as_str());
    r.append("\nORDER BY item_id, bucket\n        ");
    proof {
        assert(r@ =~= spec_build_query(*query));
    }
    r
}

} // verus!
