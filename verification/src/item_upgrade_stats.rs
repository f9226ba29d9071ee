//! Canonical query text for the item upgrade-path endpoint.

use vstd::prelude::*;
use vstd::string::StringExecFns;

use crate::text::{
    and_clause, dec_digits, dec_int, i64_to_dec, one_if, prefixed, spec_and_clause, str_views,
    u32_to_dec, u64_to_dec,
};

verus! {

/// The default statistical-significance threshold for this endpoint.
pub fn default_min_matches() -> (r: Option<u32>)
    ensures
        r == Some(20u32),
{
    Some(20)
}

/// Validated query parameters of the upgrade-path endpoint.
#[derive(Debug, Clone, PartialEq, Eq, Hash)]
pub struct ItemUpgradeQuery {
    /// Filter by hero ID
    pub hero_id: Option<u32>,
    /// Filter by specific item ID (the source item to track upgrades from)
    pub item_id: Option<u32>,
    /// Minimum badge level filter
    pub min_average_badge: Option<u8>,
    /// Maximum badge level filter
    pub max_average_badge: Option<u8>,
    /// Filter matches from this timestamp
    pub min_unix_timestamp: Option<i64>,
    /// Filter matches until this timestamp
    pub max_unix_timestamp: Option<i64>,
    /// Minimum matches for statistical significance
    pub min_matches: Option<u32>,
}

impl Default for ItemUpgradeQuery {
    fn default() -> (r: Self)
        ensures
            r == (ItemUpgradeQuery {
                hero_id: None,
                item_id: None,
                min_average_badge: None,
                max_average_badge: None,
                min_unix_timestamp: None,
                max_unix_timestamp: None,
                min_matches: None,
            }),
    {
        ItemUpgradeQuery {
            hero_id: None,
            item_id: None,
            min_average_badge: None,
            max_average_badge: None,
            min_unix_timestamp: None,
            max_unix_timestamp: None,
            min_matches: None,
        }
    }
}

/// The match-level filters, in the order they appear in the query text.
pub open spec fn spec_info_filters(q: ItemUpgradeQuery) -> Seq<Seq<char>> {
    one_if(
        q.min_unix_timestamp is Some,
        "start_time >= "@ + dec_int(q.min_unix_timestamp->0 as int),
    ) + one_if(
        q.max_unix_timestamp is Some,
        "start_time <= "@ + dec_int(q.max_unix_timestamp->0 as int),
    ) + one_if(
        q.min_average_badge is Some && q.min_average_badge->0 > 11,
        "average_badge_team0 >= "@ + dec_digits(q.min_average_badge->0 as nat)
            + " AND average_badge_team1 >= "@ + dec_digits(q.min_average_badge->0 as nat),
    ) + one_if(
        q.max_average_badge is Some && q.max_average_badge->0 < 116,
        "average_badge_team0 <= "@ + dec_digits(q.max_average_badge->0 as nat)
            + " AND average_badge_team1 <= "@ + dec_digits(q.max_average_badge->0 as nat),
    )
}

/// The source-item filters, in the order they appear in the query text.
pub open spec fn spec_player_filters(q: ItemUpgradeQuery) -> Seq<Seq<char>> {
    one_if(q.hero_id is Some, "hero_id = "@ + dec_digits(q.hero_id->0 as nat)) + one_if(
        q.item_id is Some,
        "source_item = "@ + dec_digits(q.item_id->0 as nat),
    )
}

/// The significance threshold the query filters on: the parameter, or 20.
pub open spec fn spec_min_matches(q: ItemUpgradeQuery) -> nat {
    (match q.min_matches {
        Some(m) => m,
        None => 20u32,
    }) as nat
}

/// The canonical query text for the given parameters.
pub open spec fn spec_build_query(q: ItemUpgradeQuery) -> Seq<char> {
    "\nWITH\n    t_upgrades AS (SELECT id FROM items WHERE type = 'upgrade'),\n    t_matches AS (\n        SELECT match_id, start_time, duration_s\n        FROM match_info\n        WHERE match_mode IN ('Ranked', 'Unranked')"@
        + spec_and_clause(spec_info_filters(q))
        + "\n    ),\n    player_items AS (\n        SELECT\n            match_id,\n            hero_id,\n            it.item_id AS item_id,\n            it.game_time_s AS buy_time,\n            it.sold_time_s AS sold_time,\n            arraySort(x -> x.game_time_s, items) AS sorted_items\n        FROM match_player\n            ARRAY JOIN items AS it\n        WHERE match_id IN (SELECT match_id FROM t_matches)\n            AND it.item_id IN t_upgrades\n            AND it.game_time_s > 0\n    ),\n    item_sequences AS (\n        SELECT\n            match_id,\n            hero_id,\n            item_id AS source_item,\n            buy_time AS source_buy_time,\n            sold_time AS source_sold_time,\n            sorted_items\n        FROM player_items\n    ),\n    upgrade_pairs AS (\n        SELECT\n            source_item,\n            hero_id,\n            arrayFilter(\n                x -> x.game_time_s > source_buy_time AND x.game_time_s <= source_buy_time + 600,\n                sorted_items\n            ) AS potential_upgrades,\n            if(source_sold_time > 0, 1, 0) AS was_sold,\n            if(source_sold_time = 0, 1, 0) AS was_held\n        FROM item_sequences\n    ),\n    upgrade_stats AS (\n        SELECT\n            source_item,\n            hero_id,\n            arrayElement(potential_upgrades, 1).item_id AS target_item,\n            arrayElement(potential_upgrades, 1).game_time_s - arrayElement(potential_upgrades, 1).game_time_s AS upgrade_time_diff,\n            was_sold,\n            was_held\n        FROM upgrade_pairs\n        WHERE length(potential_upgrades) > 0\n    )\nSELECT\n    source_item AS item_id,\n    hero_id,\n    count() AS total_purchases,\n    target_item,\n    count() AS upgrade_count,\n    avg(upgrade_time_diff) / 60.0 AS avg_upgrade_time_minutes,\n    sum(was_sold) AS total_sold,\n    sum(was_held) AS total_held\nFROM upgrade_stats\nWHERE source_item IN t_upgrades"@
        + spec_and_clause(spec_player_filters(q))
        + "\nGROUP BY item_id, hero_id, target_item\nHAVING total_purchases >= "@ + dec_digits(
        spec_min_matches(q),
    ) + "\nORDER BY item_id, hero_id, upgrade_count DESC\n        "@
}

/// Builds the match-level filters.
fn info_filters(q: &ItemUpgradeQuery) -> (r: Vec<String>)
    ensures
        str_views(r@) == spec_info_filters(*q),
{
    let mut fs: Vec<String> = Vec::new();
    if let Some(v) = q.min_unix_timestamp {
        let n = i64_to_dec(v);
        fs.push(prefixed("start_time >= ", n.as_str()));
    }
    if let Some(v) = q.max_unix_timestamp {
        let n = i64_to_dec(v);
        fs.push(prefixed("start_time <= ", n.as_str()));
    }
    if let Some(v) = q.min_average_badge {
        if v > 11 {
            let n = u64_to_dec(v as u64);
            let mut f = prefixed("average_badge_team0 >= ", n.as_str());
            f.append(" AND average_badge_team1 >= ");
            f.append(n.as_str());
            fs.push(f);
        }
    }
    if let Some(v) = q.max_average_badge {
        if v < 116 {
            let n = u64_to_dec(v as u64);
            let mut f = prefixed("average_badge_team0 <= ", n.as_str());
            f.append(" AND average_badge_team1 <= ");
            f.append(n.as_str());
            fs.push(f);
        }
    }
    proof {
        assert(str_views(fs@) =~= spec_info_filters(*q));
    }
    fs
}

/// Builds the source-item filters.
fn player_filters(q: &ItemUpgradeQuery) -> (r: Vec<String>)
    ensures
        str_views(r@) == spec_player_filters(*q),
{
    let mut fs: Vec<String> = Vec::new();
    if let Some(v) = q.hero_id {
        let n = u32_to_dec(v);
        fs.push(prefixed("hero_id = ", n.as_str()));
    }
    if let Some(v) = q.item_id {
        let n = u32_to_dec(v);
        fs.push(prefixed("source_item = ", n.as_str()));
    }
    proof {
        assert(str_views(fs@) =~= spec_player_filters(*q));
    }
    fs
}

/// Builds the canonical query text for the upgrade-path endpoint.
pub fn build_query(query: &ItemUpgradeQuery) -> (r: String)
    ensures
        r@ == spec_build_query(*query),
{
    let info = info_filters(query);
    let info_sql = and_clause(&info);
    let player = player_filters(query);
    let player_sql = and_clause(&player);
    let min_matches: u32 = match query.min_matches {
        Some(m) => m,
        None => 20,
    };
    let min_matches_sql = u32_to_dec(min_matches);
    let mut r =
        "\nWITH\n    t_upgrades AS (SELECT id FROM items WHERE type = 'upgrade'),\n    t_matches AS (\n        SELECT match_id, start_time, duration_s\n        FROM match_info\n        WHERE match_mode IN ('Ranked', 'Unranked')".to_owned();
    r.append(info_sql.as_str());
    r.append(
        "\n    ),\n    player_items AS (\n        SELECT\n            match_id,\n            hero_id,\n            it.item_id AS item_id,\n            it.game_time_s AS buy_time,\n            it.sold_time_s AS sold_time,\n            arraySort(x -> x.game_time_s, items) AS sorted_items\n        FROM match_player\n            ARRAY JOIN items AS it\n        WHERE match_id IN (SELECT match_id FROM t_matches)\n            AND it.item_id IN t_upgrades\n            AND it.game_time_s > 0\n    ),\n    item_sequences AS (\n        SELECT\n            match_id,\n            hero_id,\n            item_id AS source_item,\n            buy_time AS source_buy_time,\n            sold_time AS source_sold_time,\n            sorted_items\n        FROM player_items\n    ),\n    upgrade_pairs AS (\n        SELECT\n            source_item,\n            hero_id,\n            arrayFilter(\n                x -> x.game_time_s > source_buy_time AND x.game_time_s <= source_buy_time + 600,\n                sorted_items\n            ) AS potential_upgrades,\n            if(source_sold_time > 0, 1, 0) AS was_sold,\n            if(source_sold_time = 0, 1, 0) AS was_held\n        FROM item_sequences\n    ),\n    upgrade_stats AS (\n        SELECT\n            source_item,\n            hero_id,\n            arrayElement(potential_upgrades, 1).item_id AS target_item,\n            arrayElement(potential_upgrades, 1).game_time_s - arrayElement(potential_upgrades, 1).game_time_s AS upgrade_time_diff,\n            was_sold,\n            was_held\n        FROM upgrade_pairs\n        WHERE length(potential_upgrades) > 0\n    )\nSELECT\n    source_item AS item_id,\n    hero_id,\n    count() AS total_purchases,\n    target_item,\n    count() AS upgrade_count,\n    avg(upgrade_time_diff) / 60.0 AS avg_upgrade_time_minutes,\n    sum(was_sold) AS total_sold,\n    sum(was_held) AS total_held\nFROM upgrade_stats\nWHERE source_item IN t_upgrades",
    );
    r.append(player_sql.as_str());
    r.append("\nGROUP BY item_id, hero_id, target_item\nHAVING total_purchases >= ");
    r.append(min_matches_sql.as_str());
    r.append("\nORDER BY item_id, hero_id, upgrade_count DESC\n        ");
    proof {
        assert(r@ =~= spec_build_query(*query));
    }
    r
}

} // verus!
