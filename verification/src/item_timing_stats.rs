//! Canonical query text for the item purchase-timing endpoint, and the names
//! of the game phases its buckets are reported under.

use vstd::prelude::*;
use vstd::string::StringExecFns;

use crate::text::{
    and_clause, dec_digits, dec_int, i64_to_dec, one_if, prefixed, spec_and_clause, str_views,
    u32_to_dec, u64_to_dec,
};

verus! {

/// The default statistical-significance threshold for this endpoint.
pub fn default_min_matches() -> (r: Option<u32>)
    ensures
        r == Some(20u32),
{
    Some(20)
}

/// The reported name of a game phase.
pub open spec fn spec_phase_name(phase_id: u8) -> Seq<char> {
    if phase_id == 0 {
        "early_game"@
    } else if phase_id == 1 {
        "mid_game"@
    } else if phase_id == 2 {
        "late_game"@
    } else if phase_id == 3 {
        "very_late"@
    } else {
        "unknown"@
    }
}

/// The reported name of a game phase.
pub fn phase_id_to_name(phase_id: u8) -> (r: &'static str)
    ensures
        r@ == spec_phase_name(phase_id),
{
    match phase_id {
        0 => "early_game",
        1 => "mid_game",
        2 => "late_game",
        3 => "very_late",
        _ => "unknown",
    }
}

/// Validated query parameters of the purchase-timing endpoint.
#[derive(Debug, Clone, PartialEq, Eq, Hash)]
pub struct ItemTimingQuery {
    /// Filter by hero ID
    pub hero_id: Option<u32>,
    /// Filter by specific item ID
    pub item_id: Option<u32>,
    /// Minimum badge level filter
    pub min_average_badge: Option<u8>,
    /// Maximum badge level filter
    pub max_average_badge: Option<u8>,
    /// Filter matches from this timestamp
    pub min_unix_timestamp: Option<i64>,
    /// Filter matches until this timestamp
    pub max_unix_timestamp: Option<i64>,
    /// Minimum matches for statistical significance
    pub min_matches: Option<u32>,
}

impl Default for ItemTimingQuery {
    fn default() -> (r: Self)
        ensures
            r == (ItemTimingQuery {
                hero_id: None,
                item_id: None,
                min_average_badge: None,
                max_average_badge: None,
                min_unix_timestamp: None,
                max_unix_timestamp: None,
                min_matches: None,
            }),
    {
        ItemTimingQuery {
            hero_id: None,
            item_id: None,
            min_average_badge: None,
            max_average_badge: None,
            min_unix_timestamp: None,
            max_unix_timestamp: None,
            min_matches: None,
        }
    }
}

/// The match-level filters, in the order they appear in the query text.
pub open spec fn spec_info_filters(q: ItemTimingQuery) -> Seq<Seq<char>> {
    one_if(
        q.min_unix_timestamp is Some,
        "start_time >= "@ + dec_int(q.min_unix_timestamp->0 as int),
    ) + one_if(
        q.max_unix_timestamp is Some,
        "start_time <= "@ + dec_int(q.max_unix_timestamp->0 as int),
    ) + one_if(
        q.min_average_badge is Some && q.min_average_badge->0 > 11,
        "average_badge_team0 >= "@ + dec_digits(q.min_average_badge->0 as nat)
            + " AND average_badge_team1 >= "@ + dec_digits(q.min_average_badge->0 as nat),
    ) + one_if(
        q.max_average_badge is Some && q.max_average_badge->0 < 116,
        "average_badge_team0 <= "@ + dec_digits(q.max_average_badge->0 as nat)
            + " AND average_badge_team1 <= "@ + dec_digits(q.max_average_badge->0 as nat),
    )
}

/// The player-level filters, in the order they appear in the query text.
pub open spec fn spec_player_filters(q: ItemTimingQuery) -> Seq<Seq<char>> {
    one_if(q.hero_id is Some, "hero_id = "@ + dec_digits(q.hero_id->0 as nat)) + one_if(
        q.item_id is Some,
        "it.item_id = "@ + dec_digits(q.item_id->0 as nat),
    )
}

/// The significance threshold the query filters on: the parameter, or 20.
pub open spec fn spec_min_matches(q: ItemTimingQuery) -> nat {
    (match q.min_matches {
        Some(m) => m,
        None => 20u32,
    }) as nat
}

/// The canonical query text for the given parameters.
pub open spec fn spec_build_query(q: ItemTimingQuery) -> Seq<char> {
    "\nWITH\n    t_upgrades AS (SELECT id FROM items WHERE type = 'upgrade'),\n    t_matches AS (\n        SELECT match_id, start_time, duration_s\n        FROM match_info\n        WHERE match_mode IN ('Ranked', 'Unranked')"@
        + spec_and_clause(spec_info_filters(q))
        + "\n    ),\n    exploded_players AS (\n        SELECT\n            match_id,\n            hero_id,\n            it.item_id AS item_id,\n            won,\n            it.game_time_s AS buy_time,\n            it.sold_time_s AS sold_time,\n            multiIf(it.game_time_s < 300, 0, it.game_time_s < 1200, 1, it.game_time_s < 1800, 2, 3) AS buy_phase,\n            multiIf(it.sold_time_s < 300, 0, it.sold_time_s < 1200, 1, it.sold_time_s < 1800, 2, 3) AS sell_phase\n        FROM match_player\n            ARRAY JOIN items AS it\n        WHERE match_id IN (SELECT match_id FROM t_matches)\n            AND it.item_id IN t_upgrades\n            AND it.game_time_s > 0\n            "@
        + spec_and_clause(spec_player_filters(q))
        + "\n    )\nSELECT\n    item_id,\n    hero_id,\n    buy_phase,\n    sum(won) AS wins,\n    sum(not won) AS losses,\n    wins + losses AS matches,\n    countIf(sold_time > 0) AS sell_count,\n    avgIf(sold_time - buy_time, sold_time > 0) AS avg_hold_duration_s\nFROM exploded_players\nINNER JOIN t_matches USING (match_id)\nGROUP BY item_id, hero_id, buy_phase\nHAVING matches >= "@
        + dec_digits(spec_min_matches(q)) + "\nORDER BY item_id, hero_id, buy_phase\n        "@
}

/// Builds the match-level filters.
fn info_filters(q: &ItemTimingQuery) -> (r: Vec<String>)
    ensures
        str_views(r@) == spec_info_filters(*q),
{
    let mut fs: Vec<String> = Vec::new();
    if let Some(v) = q.min_unix_timestamp {
        let n = i64_to_dec(v);
        fs.push(prefixed("start_time >= ", n.as_str()));
    }
    if let Some(v) = q.max_unix_timestamp {
        let n = i64_to_dec(v);
        fs.push(prefixed("start_time <= ", n.as_str()));
    }
    if let Some(v) = q.min_average_badge {
        if v > 11 {
            let n = u64_to_dec(v as u64);
            let mut f = prefixed("average_badge_team0 >= ", n.as_str());
            f.append(" AND average_badge_team1 >= ");
            f.append(n.as_str());
            fs.push(f);
        }
    }
    if let Some(v) = q.max_average_badge {
        if v < 116 {
            let n = u64_to_dec(v as u64);
            let mut f = prefixed("average_badge_team0 <= ", n.as_str());
            f.append(" AND average_badge_team1 <= ");
            f.append(n.as_str());
            fs.push(f);
        }
    }
    proof {
        assert(str_views(fs@) =~= spec_info_filters(*q));
    }
    fs
}

/// Builds the player-level filters.
fn player_filters(q: &ItemTimingQuery) -> (r: Vec<String>)
    ensures
        str_views(r@) == spec_player_filters(*q),
{
    let mut fs: Vec<String> = Vec::new();
    if let Some(v) = q.hero_id {
        let n = u32_to_dec(v);
        fs.push(prefixed("hero_id = ", n.as_str()));
    }
    if let Some(v) = q.item_id {
        let n = u32_to_dec(v);
        fs.push(prefixed("it.item_id = ", n.as_str()));
    }
    proof {
        assert(str_views(fs@) =~= spec_player_filters(*q));
    }
    fs
}

/// Builds the canonical query text for the purchase-timing endpoint.
pub fn build_query(query: &ItemTimingQuery) -> (r: String)
    ensures
        r@ == spec_build_query(*query),
{
    let info = info_filters(query);
    let info_sql = and_clause(&info);
    let player = player_filters(query);
    let player_sql = and_clause(&player);
    let min_matches: u32 = match query.min_matches {
        Some(m) => m,
        None => 20,
    };
    let min_matches_sql = u32_to_dec(min_matches);
    let mut r =
        "\nWITH\n    t_upgrades AS (SELECT id FROM items WHERE type = 'upgrade'),\n    t_matches AS (\n        SELECT match_id, start_time, duration_s\n        FROM match_info\n        WHERE match_mode IN ('Ranked', 'Unranked')".to_owned();
    r.append(info_sql.as_str());
    r.append(
        "\n    ),\n    exploded_players AS (\n        SELECT\n            match_id,\n            hero_id,\n            it.item_id AS item_id,\n            won,\n            it.game_time_s AS buy_time,\n            it.sold_time_s AS sold_time,\n            multiIf(it.game_time_s < 300, 0, it.game_time_s < 1200, 1, it.game_time_s < 1800, 2, 3) AS buy_phase,\n            multiIf(it.sold_time_s < 300, 0, it.sold_time_s < 1200, 1, it.sold_time_s < 1800, 2, 3) AS sell_phase\n        FROM match_player\n            ARRAY JOIN items AS it\n        WHERE match_id IN (SELECT match_id FROM t_matches)\n            AND it.item_id IN t_upgrades\n            AND it.game_time_s > 0\n            ",
    );
    r.append(player_sql.as_str());
    r.append(
        "\n    )\nSELECT\n    item_id,\n    hero_id,\n    buy_phase,\n    sum(won) AS wins,\n    sum(not won) AS losses,\n    wins + losses AS matches,\n    countIf(sold_time > 0) AS sell_count,\n    avgIf(sold_time - buy_time, sold_time > 0) AS avg_hold_duration_s\nFROM exploded_players\nINNER JOIN t_matches USING (match_id)\nGROUP BY item_id, hero_id, buy_phase\nHAVING matches >= ",
    );
    r.append(min_matches_sql.as_str());
    r.append("\nORDER BY item_id, hero_id, buy_phase\n        ");
    proof {
        assert(r@ =~= spec_build_query(*query));
    }
    r
}

} // verus!
