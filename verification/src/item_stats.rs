//! Canonical query text for the item-statistics endpoint.
//!
//! The builder turns the validated query parameters into the exact canonical
//! query string; the string doubles as the fingerprint under which the result
//! is memoized.

use vstd::prelude::*;
use vstd::string::StringExecFns;

use crate::text::{
    and_clause, dec_digits, dec_int, dec_seq, i64_to_dec, join_with, list_filter, one_if, prefixed,
    spec_and_clause, str_views, u32_to_dec, u64_to_dec,
};

verus! {

/// The default statistical-significance threshold for this endpoint.
pub fn default_min_matches() -> (r: Option<u32>)
    ensures
        r == Some(20u32),
{
    Some(20)
}

/// How the statistics are bucketed.
#[derive(Debug, Clone, Copy, PartialEq, Eq, Structural, Hash)]
pub enum BucketQuery {
    /// No Bucketing
    NoBucket,
    /// Bucket Item Stats By Hero
    Hero,
    /// Bucket Item Stats By Team
    Team,
    /// Bucket Item Stats By Start Time (Hour)
    StartTimeHour,
    /// Bucket Item Stats By Start Time (Day)
    StartTimeDay,
    /// Bucket Item Stats By Start Time (Week)
    StartTimeWeek,
    /// Bucket Item Stats By Start Time (Month)
    StartTimeMonth,
    /// Bucket Item Stats by Game Time (Minutes)
    GameTimeMin,
    /// Bucket Item Stats by Game Time Normalized with the match duration
    GameTimeNormalizedPercentage,
    /// Bucket Item Stats by Net Worth (grouped by 1000)
    NetWorthBy1000,
    /// Bucket Item Stats by Net Worth (grouped by 2000)
    NetWorthBy2000,
    /// Bucket Item Stats by Net Worth (grouped by 3000)
    NetWorthBy3000,
    /// Bucket Item Stats by Net Worth (grouped by 5000)
    NetWorthBy5000,
    /// Bucket Item Stats by Net Worth (grouped by 10000)
    NetWorthBy10000,
    /// Bucket Item Stats by Game Phase (Early/Mid/Late/VeryLate)
    GamePhase,
}

impl Default for BucketQuery {
    fn default() -> (r: Self)
        ensures
            r == BucketQuery::NoBucket,
    {
        BucketQuery::NoBucket
    }
}

/// The grouping expression selected for each bucketing mode.
pub open spec fn spec_select_clause(b: BucketQuery) -> Seq<char> {
    match b {
        BucketQuery::NoBucket => "toUInt32(0)"@,
        BucketQuery::Hero => "hero_id"@,
        BucketQuery::Team => "toUInt32(if(team = 'Team0', 0, 1))"@,
        BucketQuery::StartTimeHour => "toStartOfHour(start_time)"@,
        BucketQuery::StartTimeDay => "toStartOfDay(start_time)"@,
        BucketQuery::StartTimeWeek => "toDateTime(toStartOfWeek(start_time))"@,
        BucketQuery::StartTimeMonth => "toDateTime(toStartOfMonth(start_time))"@,
        BucketQuery::GameTimeMin => "toUInt32(floor(buy_time / 60))"@,
        BucketQuery::GameTimeNormalizedPercentage => "toUInt32(floor((buy_time - 1) / duration_s * 100))"@,
        BucketQuery::NetWorthBy1000 => "toUInt32(floor(net_worth_at_buy / 1000) * 1000)"@,
        BucketQuery::NetWorthBy2000 => "toUInt32(floor(net_worth_at_buy / 2000) * 2000)"@,
        BucketQuery::NetWorthBy3000 => "toUInt32(floor(net_worth_at_buy / 3000) * 3000)"@,
        BucketQuery::NetWorthBy5000 => "toUInt32(floor(net_worth_at_buy / 5000) * 5000)"@,
        BucketQuery::NetWorthBy10000 => "toUInt32(floor(net_worth_at_buy / 10000) * 10000)"@,
        BucketQuery::GamePhase => "multiIf(buy_time < 300, 0, buy_time < 1200, 1, buy_time < 1800, 2, 3)"@,
    }
}

/// Whether the bucketing mode groups by the buy time.
pub open spec fn is_game_time_bucket(b: BucketQuery) -> bool {
    b == BucketQuery::GameTimeMin || b == BucketQuery::GameTimeNormalizedPercentage || b
        == BucketQuery::GamePhase
}

/// Whether the bucketing mode groups by the net worth at buy time.
pub open spec fn is_net_worth_bucket(b: BucketQuery) -> bool {
    b == BucketQuery::NetWorthBy1000 || b == BucketQuery::NetWorthBy2000 || b
        == BucketQuery::NetWorthBy3000 || b == BucketQuery::NetWorthBy5000 || b
        == BucketQuery::NetWorthBy10000
}

impl BucketQuery {
    /// The grouping expression for this bucketing mode.
    pub fn get_select_clause(self) -> (r: &'static str)
        ensures
            r@ == spec_select_clause(self),
    {
        match self {
            Self::NoBucket => "toUInt32(0)",
            Self::Hero => "hero_id",
            Self::Team => "toUInt32(if(team = 'Team0', 0, 1))",
            Self::StartTimeHour => "toStartOfHour(start_time)",
            Self::StartTimeDay => "toStartOfDay(start_time)",
            Self::StartTimeWeek => "toDateTime(toStartOfWeek(start_time))",
            Self::StartTimeMonth => "toDateTime(toStartOfMonth(start_time))",
            Self::GameTimeMin => "toUInt32(floor(buy_time / 60))",
            Self::GameTimeNormalizedPercentage => "toUInt32(floor((buy_time - 1) / duration_s * 100))",
            Self::NetWorthBy1000 => "toUInt32(floor(net_worth_at_buy / 1000) * 1000)",
            Self::NetWorthBy2000 => "toUInt32(floor(net_worth_at_buy / 2000) * 2000)",
            Self::NetWorthBy3000 => "toUInt32(floor(net_worth_at_buy / 3000) * 3000)",
            Self::NetWorthBy5000 => "toUInt32(floor(net_worth_at_buy / 5000) * 5000)",
            Self::NetWorthBy10000 => "toUInt32(floor(net_worth_at_buy / 10000) * 10000)",
            Self::GamePhase => "multiIf(buy_time < 300, 0, buy_time < 1200, 1, buy_time < 1800, 2, 3)",
        }
    }
}

/// Validated query parameters of the item-statistics endpoint.
#[derive(Debug, Clone, PartialEq, Eq, Hash)]
pub struct ItemStatsQuery {
    /// Bucket allows you to group the stats by a specific field.
    pub bucket: BucketQuery,
    /// Filter matches based on the hero IDs.
    pub hero_ids: Option<Vec<u32>>,
    /// Filter matches based on the hero ID (superseded by hero_ids).
    pub hero_id: Option<u32>,
    /// Filter matches based on their start time (Unix timestamp).
    pub min_unix_timestamp: Option<i64>,
    /// Filter matches based on their start time (Unix timestamp).
    pub max_unix_timestamp: Option<i64>,
    /// Filter matches based on their duration in seconds.
    pub min_duration_s: Option<u64>,
    /// Filter matches based on their duration in seconds.
    pub max_duration_s: Option<u64>,
    /// Filter players based on their final net worth.
    pub min_networth: Option<u64>,
    /// Filter players based on their final net worth.
    pub max_networth: Option<u64>,
    /// Filter matches based on the average badge level of both teams.
    pub min_average_badge: Option<u8>,
    /// Filter matches based on the average badge level of both teams.
    pub max_average_badge: Option<u8>,
    /// Filter matches based on their ID.
    pub min_match_id: Option<u64>,
    /// Filter matches based on their ID.
    pub max_match_id: Option<u64>,
    /// Item ids that every counted player must have bought.
    pub include_item_ids: Option<Vec<u32>>,
    /// Item ids that no counted player may have bought.
    pub exclude_item_ids: Option<Vec<u32>>,
    /// The minimum number of matches played for an item to be included.
    pub min_matches: Option<u32>,
    /// The maximum number of matches played for an item to be included.
    pub max_matches: Option<u32>,
    /// Filter for matches with a specific player account ID (superseded by
    /// account_ids).
    pub account_id: Option<u32>,
    /// Account ids to include.
    pub account_ids: Option<Vec<u32>>,
    /// Filter items bought after this game time (seconds).
    pub min_bought_at_s: Option<u32>,
    /// Filter items bought before this game time (seconds).
    pub max_bought_at_s: Option<u32>,
}

impl Default for ItemStatsQuery {
    fn default() -> (r: Self)
        ensures
            r == (ItemStatsQuery {
                bucket: BucketQuery::NoBucket,
                hero_ids: None,
                hero_id: None,
                min_unix_timestamp: None,
                max_unix_timestamp: None,
                min_duration_s: None,
                max_duration_s: None,
                min_networth: None,
                max_networth: None,
                min_average_badge: None,
                max_average_badge: None,
                min_match_id: None,
                max_match_id: None,
                include_item_ids: None,
                exclude_item_ids: None,
                min_matches: None,
                max_matches: None,
                account_id: None,
                account_ids: None,
                min_bought_at_s: None,
                max_bought_at_s: None,
            }),
    {
        ItemStatsQuery {
            bucket: BucketQuery::NoBucket,
            hero_ids: None,
            hero_id: None,
            min_unix_timestamp: None,
            max_unix_timestamp: None,
            min_duration_s: None,
            max_duration_s: None,
            min_networth: None,
            max_networth: None,
            min_average_badge: None,
            max_average_badge: None,
            min_match_id: None,
            max_match_id: None,
            include_item_ids: None,
            exclude_item_ids: None,
            min_matches: None,
            max_matches: None,
            account_id: None,
            account_ids: None,
            min_bought_at_s: None,
            max_bought_at_s: None,
        }
    }
}

/// The timestamp and match-id range filters of the match-level list.
pub open spec fn spec_range_filters(q: ItemStatsQuery) -> Seq<Seq<char>> {
    one_if(
        q.min_unix_timestamp is Some,
        "start_time >= "@ + dec_int(q.min_unix_timestamp->0 as int),
    ) + one_if(
        q.max_unix_timestamp is Some,
        "start_time <= "@ + dec_int(q.max_unix_timestamp->0 as int),
    ) + one_if(q.min_match_id is Some, "match_id >= "@ + dec_digits(q.min_match_id->0 as nat))
        + one_if(q.max_match_id is Some, "match_id <= "@ + dec_digits(q.max_match_id->0 as nat))
}

/// The badge and duration filters of the match-level list.
pub open spec fn spec_badge_duration_filters(q: ItemStatsQuery) -> Seq<Seq<char>> {
    one_if(
        q.min_average_badge is Some && q.min_average_badge->0 > 11,
        "average_badge_team0 >= "@ + dec_digits(q.min_average_badge->0 as nat)
            + " AND average_badge_team1 >= "@ + dec_digits(q.min_average_badge->0 as nat),
    ) + one_if(
        q.max_average_badge is Some && q.max_average_badge->0 < 116,
        "average_badge_team0 <= "@ + dec_digits(q.max_average_badge->0 as nat)
            + " AND average_badge_team1 <= "@ + dec_digits(q.max_average_badge->0 as nat),
    ) + one_if(q.min_duration_s is Some, "duration_s >= "@ + dec_digits(q.min_duration_s->0 as nat))
        + one_if(
        q.max_duration_s is Some,
        "duration_s <= "@ + dec_digits(q.max_duration_s->0 as nat),
    )
}

/// The match-level filters, in the order they appear in the query text.
pub open spec fn spec_info_filters(q: ItemStatsQuery) -> Seq<Seq<char>> {
    spec_range_filters(q) + spec_badge_duration_filters(q)
}

/// The hero ids that are filtered on: the id list, with the single id (when
/// given) appended.
pub open spec fn spec_combined_hero_ids(q: ItemStatsQuery) -> Seq<u32> {
    (match q.hero_ids {
        Some(ids) => ids@,
        None => Seq::empty(),
    }) + (match q.hero_id {
        Some(h) => seq![h],
        None => Seq::empty(),
    })
}

/// The hero and account filters of the player-level list.
pub open spec fn spec_identity_filters(q: ItemStatsQuery) -> Seq<Seq<char>> {
    one_if(
        spec_combined_hero_ids(q).len() > 0,
        "hero_id IN ("@ + join_with(dec_seq(spec_combined_hero_ids(q)), ", "@) + ")"@,
    ) + one_if(q.account_id is Some, "account_id = "@ + dec_digits(q.account_id->0 as nat))
        + one_if(
        q.account_ids is Some,
        "account_id IN ("@ + join_with(dec_seq(q.account_ids->0@), ","@) + ")"@,
    )
}

/// The net-worth and item-set filters of the player-level list.
pub open spec fn spec_worth_item_filters(q: ItemStatsQuery) -> Seq<Seq<char>> {
    one_if(q.min_networth is Some, "net_worth >= "@ + dec_digits(q.min_networth->0 as nat)) + one_if(
        q.max_networth is Some,
        "net_worth <= "@ + dec_digits(q.max_networth->0 as nat),
    ) + one_if(
        q.include_item_ids is Some,
        "hasAll(items.item_id, ["@ + join_with(dec_seq(q.include_item_ids->0@), ", "@) + "])"@,
    ) + one_if(
        q.exclude_item_ids is Some,
        "NOT hasAny(items.item_id, ["@ + join_with(dec_seq(q.exclude_item_ids->0@), ", "@) + "])"@,
    )
}

/// The buy-time window filters of the player-level list.
pub open spec fn spec_bought_at_filters(q: ItemStatsQuery) -> Seq<Seq<char>> {
    one_if(
        q.min_bought_at_s is Some,
        "it.game_time_s >= "@ + dec_digits(q.min_bought_at_s->0 as nat),
    ) + one_if(
        q.max_bought_at_s is Some,
        "it.game_time_s <= "@ + dec_digits(q.max_bought_at_s->0 as nat),
    )
}

/// The player-level filters, in the order they appear in the query text.
pub open spec fn spec_player_filters(q: ItemStatsQuery) -> Seq<Seq<char>> {
    spec_identity_filters(q) + spec_worth_item_filters(q) + spec_bought_at_filters(q)
}

/// The significance filters applied after grouping.
pub open spec fn spec_having_filters(q: ItemStatsQuery) -> Seq<Seq<char>> {
    one_if(q.min_matches is Some, "matches >= "@ + dec_digits(q.min_matches->0 as nat)) + one_if(
        q.max_matches is Some,
        "matches <= "@ + dec_digits(q.max_matches->0 as nat),
    )
}

/// The HAVING clause: empty when there are no significance filters.
pub open spec fn spec_having_clause(parts: Seq<Seq<char>>) -> Seq<char> {
    if parts.len() == 0 {
        Seq::empty()
    } else {
        "HAVING "@ + join_with(parts, " AND "@)
    }
}

/// The extra selected column when bucketing by buy time.
pub open spec fn spec_buy_time_expr(b: BucketQuery) -> Seq<char> {
    if is_game_time_bucket(b) {
        ",it.game_time_s AS buy_time"@
    } else {
        ""@
    }
}

/// The extra selected column when bucketing by net worth.
pub open spec fn spec_net_worth_expr(b: BucketQuery) -> Seq<char> {
    if is_net_worth_bucket(b) {
        "\n        , coalesce(\n            arrayElementOrNull(\n                stats.net_worth,\n                arrayFirstIndex(ts -> ts >= it.game_time_s, stats.time_stamp_s) - 1\n            ), net_worth\n        ) AS net_worth_at_buy\n        "@
    } else {
        ""@
    }
}

/// The canonical query text for the given parameters.
pub open spec fn spec_build_query(q: ItemStatsQuery) -> Seq<char> {
    "\nWITH\n    t_upgrades AS (SELECT id FROM items WHERE type = 'upgrade'),\n    t_matches AS (\n        SELECT match_id, start_time, duration_s\n        FROM match_info\n        WHERE match_mode IN ('Ranked', 'Unranked')"@
        + spec_and_clause(spec_info_filters(q))
        + "\n    ),\n    exploded_players AS (\n        SELECT\n            match_id,\n            team,\n            account_id,\n            hero_id,\n            it.item_id AS item_id,\n            won,\n            it.game_time_s AS buy_time,\n            it.sold_time_s AS sold_time\n            "@
        + spec_buy_time_expr(q.bucket) + "\n            "@ + spec_net_worth_expr(q.bucket)
        + "\n        FROM match_player\n            ARRAY JOIN items AS it\n        WHERE match_id IN (SELECT match_id FROM t_matches)\n            AND it.item_id IN t_upgrades\n            AND it.game_time_s > 0\n            "@
        + spec_and_clause(spec_player_filters(q)) + "\n    )\nSELECT\n    item_id,\n    "@
        + spec_select_clause(q.bucket)
        + "    AS bucket,\n    sum(won)         AS wins,\n    sum(not won)     AS losses,\n    wins + losses    AS matches,\n    uniq(account_id) AS players,\n    avg(buy_time) AS avg_buy_time_s,\n    avgIf(sold_time, sold_time > 0) AS avg_sell_time_s,\n    avg((buy_time / duration_s) * 100) AS avg_buy_time_relative,\n    avgIf((sold_time / duration_s) * 100, sold_time > 0) AS avg_sell_time_relative\nFROM exploded_players\nINNER JOIN t_matches USING (match_id)\nGROUP BY item_id, bucket\n"@
        + spec_having_clause(spec_having_filters(q)) + "\nORDER BY item_id, bucket\n        "@
}

/// Builds the timestamp and match-id range filters.
fn range_filters(q: &ItemStatsQuery) -> (r: Vec<String>)
    ensures
        str_views(r@) == spec_range_filters(*q),
{
    let mut fs: Vec<String> = Vec::new();
    if let Some(v) = q.min_unix_timestamp {
        let n = i64_to_dec(v);
        fs.push(prefixed("start_time >= ", n.as_str()));
    }
    if let Some(v) = q.max_unix_timestamp {
        let n = i64_to_dec(v);
        fs.push(prefixed("start_time <= ", n.as_str()));
    }
    if let Some(v) = q.min_match_id {
        let n = u64_to_dec(v);
        fs.push(prefixed("match_id >= ", n.as_str()));
    }
    if let Some(v) = q.max_match_id {
        let n = u64_to_dec(v);
        fs.push(prefixed("match_id <= ", n.as_str()));
    }
    proof {
        assert(str_views(fs@) =~= spec_range_filters(*q));
    }
    fs
}

/// Builds the badge and duration filters.
fn badge_duration_filters(q: &ItemStatsQuery) -> (r: Vec<String>)
    ensures
        str_views(r@) == spec_badge_duration_filters(*q),
{
    let mut fs: Vec<String> = Vec::new();
    if let Some(v) = q.min_average_badge {
        if v > 11 {
            let n = u64_to_dec(v as u64);
            let mut f = prefixed("average_badge_team0 >= ", n.as_str());
            f.append(" AND average_badge_team1 >= ");
            f.append(n.as_str());
            fs.push(f);
        }
    }
    if let Some(v) = q.max_average_badge {
        if v < 116 {
            let n = u64_to_dec(v as u64);
            let mut f = prefixed("average_badge_team0 <= ", n.as_str());
            f.append(" AND average_badge_team1 <= ");
            f.append(n.as_str());
            fs.push(f);
        }
    }
    if let Some(v) = q.min_duration_s {
        let n = u64_to_dec(v);
        fs.push(prefixed("duration_s >= ", n.as_str()));
    }
    if let Some(v) = q.max_duration_s {
        let n = u64_to_dec(v);
        fs.push(prefixed("duration_s <= ", n.as_str()));
    }
    proof {
        assert(str_views(fs@) =~= spec_badge_duration_filters(*q));
    }
    fs
}

/// Builds the match-level filters.
fn info_filters(q: &ItemStatsQuery) -> (r: Vec<String>)
    ensures
        str_views(r@) == spec_info_filters(*q),
{
    let mut fs = range_filters(q);
    let mut rest = badge_duration_filters(q);
    let ghost first = fs@;
    let ghost second = rest@;
    fs.append(&mut rest);
    proof {
        assert(str_views(fs@) =~= str_views(first) + str_views(second));
    }
    fs
}

/// The hero ids that are filtered on, as a vector.
fn combined_hero_ids(q: &ItemStatsQuery) -> (r: Vec<u32>)
    ensures
        r@ == spec_combined_hero_ids(*q),
{
    let mut combined: Vec<u32> = Vec::new();
    if let Some(ids) = &q.hero_ids {
        let mut i: usize = 0;
        while i < ids.len()
            invariant
                i <= ids.len(),
                combined@ == ids@.take(i as int),
            decreases ids.len() - i,
        {
            combined.push(ids[i]);
            proof {
                assert(combined@ =~= ids@.take((i + 1) as int));
            }
            i = i + 1;
        }
        proof {
            assert(ids@.take(ids@.len() as int) =~= ids@);
        }
    }
    if let Some(h) = q.hero_id {
        combined.push(h);
    }
    proof {
        assert(combined@ =~= spec_combined_hero_ids(*q));
    }
    combined
}

/// Builds the hero and account filters.
fn identity_filters(q: &ItemStatsQuery) -> (r: Vec<String>)
    ensures
        str_views(r@) == spec_identity_filters(*q),
{
    let mut fs: Vec<String> = Vec::new();
    let combined = combined_hero_ids(q);
    if combined.len() > 0 {
        fs.push(list_filter("hero_id IN (", &combined, ", ", ")"));
    }
    if let Some(v) = q.account_id {
        let n = u32_to_dec(v);
        fs.push(prefixed("account_id = ", n.as_str()));
    }
    if let Some(ids) = &q.account_ids {
        fs.push(list_filter("account_id IN (", ids, ",", ")"));
    }
    proof {
        assert(str_views(fs@) =~= spec_identity_filters(*q));
    }
    fs
}

/// Builds the net-worth and item-set filters.
fn worth_item_filters(q: &ItemStatsQuery) -> (r: Vec<String>)
    ensures
        str_views(r@) == spec_worth_item_filters(*q),
{
    let mut fs: Vec<String> = Vec::new();
    if let Some(v) = q.min_networth {
        let n = u64_to_dec(v);
        fs.push(prefixed("net_worth >= ", n.as_str()));
    }
    if let Some(v) = q.max_networth {
        let n = u64_to_dec(v);
        fs.push(prefixed("net_worth <= ", n.as_str()));
    }
    if let Some(ids) = &q.include_item_ids {
        fs.push(list_filter("hasAll(items.item_id, [", ids, ", ", "])"));
    }
    if let Some(ids) = &q.exclude_item_ids {
        fs.push(list_filter("NOT hasAny(items.item_id, [", ids, ", ", "])"));
    }
    proof {
        assert(str_views(fs@) =~= spec_worth_item_filters(*q));
    }
    fs
}

/// Builds the player-level filters.
fn player_filters(q: &ItemStatsQuery) -> (r: Vec<String>)
    ensures
        str_views(r@) == spec_player_filters(*q),
{
    let mut fs = identity_filters(q);
    let mut worth = worth_item_filters(q);
    let ghost first = fs@;
    let ghost second = worth@;
    fs.append(&mut worth);
    proof {
        assert(str_views(fs@) =~= str_views(first) + str_views(second));
    }
    let ghost both = fs@;
    if let Some(v) = q.min_bought_at_s {
        let n = u32_to_dec(v);
        fs.push(prefixed("it.game_time_s >= ", n.as_str()));
    }
    if let Some(v) = q.max_bought_at_s {
        let n = u32_to_dec(v);
        fs.push(prefixed("it.game_time_s <= ", n.as_str()));
    }
    proof {
        assert(str_views(fs@) =~= str_views(both) + spec_bought_at_filters(*q));
        assert(str_views(fs@) =~= spec_player_filters(*q));
    }
    fs
}

/// Builds the significance filters.
fn having_filters(q: &ItemStatsQuery) -> (r: Vec<String>)
    ensures
        str_views(r@) == spec_having_filters(*q),
{
    let mut fs: Vec<String> = Vec::new();
    if let Some(v) = q.min_matches {
        let n = u32_to_dec(v);
        fs.push(prefixed("matches >= ", n.as_str()));
    }
    if let Some(v) = q.max_matches {
        let n = u32_to_dec(v);
        fs.push(prefixed("matches <= ", n.as_str()));
    }
    proof {
        assert(str_views(fs@) =~= spec_having_filters(*q));
    }
    fs
}

/// Builds the HAVING clause.
fn having_clause(parts: &Vec<String>) -> (r: String)
    ensures
        r@ == spec_having_clause(str_views(parts@)),
{
    if parts.is_empty() {
        let r = String::new();
        proof {
            assert(r@ =~= spec_having_clause(str_views(parts@)));
        }
        r
    } else {
        let joined = crate::text::join_strings(parts, " AND ");
        prefixed("HAVING ", joined.as_str())
    }
}

/// The ids that are not protected: the list with every protected id removed,
/// order kept.
pub open spec fn spec_unprotected(ids: Seq<u32>, protected: Seq<u32>) -> Seq<u32> {
    ids.filter(|id: u32| !protected.contains(id))
}

/// Whether the list contains the id.
fn contains_u32(v: &Vec<u32>, x: u32) -> (r: bool)
    ensures
        r == v@.contains(x),
{
    let mut i: usize = 0;
    while i < v.len()
        invariant
            i <= v@.len(),
            forall|j: int| 0 <= j < i ==> #[trigger] v@[j] != x,
        decreases v@.len() - i,
    {
        if v[i] == x {
            return true;
        }
        i = i + 1;
    }
    false
}

/// Keeps the account ids that are not protected, in order. The caller rejects
/// the request when nothing is left.
pub fn filter_unprotected(ids: &Vec<u32>, protected: &Vec<u32>) -> (r: Vec<u32>)
    ensures
        r@ == spec_unprotected(ids@, protected@),
{
    let mut r: Vec<u32> = Vec::new();
    let mut i: usize = 0;
    while i < ids.len()
        invariant
            i <= ids@.len(),
            r@ == spec_unprotected(ids@.take(i as int), protected@),
        decreases ids@.len() - i,
    {
        if !contains_u32(protected, ids[i]) {
            r.push(ids[i]);
        }
        proof {
            reveal_with_fuel(Seq::filter, 2);
            assert(ids@.take((i + 1) as int).drop_last() =~= ids@.take(i as int));
            assert(ids@.take((i + 1) as int).last() == ids@[i as int]);
            assert(r@ =~= spec_unprotected(ids@.take((i + 1) as int), protected@));
        }
        i = i + 1;
    }
    proof {
        assert(ids@.take(ids@.len() as int) =~= ids@);
    }
    r
}

/// Builds the canonical query text for the item-statistics endpoint.
pub fn build_query(query: &ItemStatsQuery) -> (r: String)
    ensures
        r@ == spec_build_query(*query),
{
    let info = info_filters(query);
    let info_sql = and_clause(&info);
    let player = player_filters(query);
    let player_sql = and_clause(&player);
    let having = having_filters(query);
    let having_sql = having_clause(&having);
    let bucket_expr = query.bucket.get_select_clause();
    let buy_time_expr: &'static str = if query.bucket == BucketQuery::GameTimeMin || query.bucket
        == BucketQuery::GameTimeNormalizedPercentage || query.bucket == BucketQuery::GamePhase {
        ",it.game_time_s AS buy_time"
    } else {
        ""
    };
    let net_worth_expr: &'static str = if query.bucket == BucketQuery::NetWorthBy1000
        || query.bucket == BucketQuery::NetWorthBy2000 || query.bucket == BucketQuery::NetWorthBy3000
        || query.bucket == BucketQuery::NetWorthBy5000 || query.bucket
        == BucketQuery::NetWorthBy10000 {
        "\n        , coalesce(\n            arrayElementOrNull(\n                stats.net_worth,\n                arrayFirstIndex(ts -> ts >= it.game_time_s, stats.time_stamp_s) - 1\n            ), net_worth\n        ) AS net_worth_at_buy\n        "
    } else {
        ""
    };
    let mut r =
        "\nWITH\n    t_upgrades AS (SELECT id FROM items WHERE type = 'upgrade'),\n    t_matches AS (\n        SELECT match_id, start_time, duration_s\n        FROM match_info\n        WHERE match_mode IN ('Ranked', 'Unranked')".to_owned();
    r.append(info_sql.as_str());
    r.append(
        "\n    ),\n    exploded_players AS (\n        SELECT\n            match_id,\n            team,\n            account_id,\n            hero_id,\n            it.item_id AS item_id,\n            won,\n            it.game_time_s AS buy_time,\n            it.sold_time_s AS sold_time\n            ",
    );
    r.append(buy_time_expr);
    r.append("\n            ");
    r.append(net_worth_expr);
    r.append(
        "\n        FROM match_player\n            ARRAY JOIN items AS it\n        WHERE match_id IN (SELECT match_id FROM t_matches)\n            AND it.item_id IN t_upgrades\n            AND it.game_time_s > 0\n            ",
    );
    r.append(player_sql.as_str());
    r.append("\n    )\nSELECT\n    item_id,\n    ");
    r.append(bucket_expr);
    r.append(
        "    AS bucket,\n    sum(won)         AS wins,\n    sum(not won)     AS losses,\n    wins + losses    AS matches,\n    uniq(account_id) AS players,\n    avg(buy_time) AS avg_buy_time_s,\n    avgIf(sold_time, sold_time > 0) AS avg_sell_time_s,\n    avg((buy_time / duration_s) * 100) AS avg_buy_time_relative,\n    avgIf((sold_time / duration_s) * 100, sold_time > 0) AS avg_sell_time_relative\nFROM exploded_players\nINNER JOIN t_matches USING (match_id)\nGROUP BY item_id, bucket\n",
    );
    r.append(having_sql.as_str());
    r.append("\nORDER BY item_id, bucket\n        ");
    proof {
        assert(r@ =~= spec_build_query(*query));
    }
    r
}

} // verus!
