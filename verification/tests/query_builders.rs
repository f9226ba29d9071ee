use analytics_gateway::build_creator;
use analytics_gateway::build_creator::{bucket_key, TimingMode};
use analytics_gateway::item_stats::{BucketQuery, ItemStatsQuery};
use analytics_gateway::item_timing_stats::{self, ItemTimingQuery};
use analytics_gateway::item_upgrade_stats::{self, ItemUpgradeQuery};

#[test]
fn test_build_item_stats_query_min_unix_timestamp() {
    let min_unix_timestamp = 1672531200;
    let query = ItemStatsQuery {
        min_unix_timestamp: Some(min_unix_timestamp),
        ..Default::default()
    };
    let query_str = analytics_gateway::item_stats::build_query(&query);
    assert!(query_str.contains(&format!("start_time >= {min_unix_timestamp}")));
}

#[test]
fn test_build_item_stats_query_max_unix_timestamp() {
    let max_unix_timestamp = 1675209599;
    let query = ItemStatsQuery {
        max_unix_timestamp: Some(max_unix_timestamp),
        ..Default::default()
    };
    let query_str = analytics_gateway::item_stats::build_query(&query);
    assert!(query_str.contains(&format!("start_time <= {max_unix_timestamp}")));
}

#[test]
fn test_build_item_stats_query_min_duration_s() {
    let min_duration_s = 600;
    let query = ItemStatsQuery {
        min_duration_s: Some(min_duration_s),
        ..Default::default()
    };
    let query_str = analytics_gateway::item_stats::build_query(&query);
    assert!(query_str.contains(&format!("duration_s >= {min_duration_s}")));
}

#[test]
fn test_build_item_stats_query_max_duration_s() {
    let max_duration_s = 1800;
    let query = ItemStatsQuery {
        max_duration_s: Some(max_duration_s),
        ..Default::default()
    };
    let query_str = analytics_gateway::item_stats::build_query(&query);
    assert!(query_str.contains(&format!("duration_s <= {max_duration_s}")));
}

#[test]
fn test_build_item_stats_query_min_networth() {
    let min_networth = 1000;
    let query = ItemStatsQuery {
        min_networth: Some(min_networth),
        ..Default::default()
    };
    let query_str = analytics_gateway::item_stats::build_query(&query);
    assert!(query_str.contains(&format!("net_worth >= {min_networth}")));
}

#[test]
fn test_build_item_stats_query_max_networth() {
    let max_networth = 10000;
    let query = ItemStatsQuery {
        max_networth: Some(max_networth),
        ..Default::default()
    };
    let query_str = analytics_gateway::item_stats::build_query(&query);
    assert!(query_str.contains(&format!("net_worth <= {max_networth}")));
}

#[test]
fn test_build_item_stats_query_min_average_badge() {
    let min_average_badge = 61;
    let query = ItemStatsQuery {
        min_average_badge: Some(min_average_badge),
        ..Default::default()
    };
    let query_str = analytics_gateway::item_stats::build_query(&query);
    assert!(query_str.contains(&format!(
        "average_badge_team0 >= {min_average_badge} AND average_badge_team1 >= \
         {min_average_badge}"
    )));
}

#[test]
fn test_build_item_stats_query_max_average_badge() {
    let max_average_badge = 112;
    let query = ItemStatsQuery {
        max_average_badge: Some(max_average_badge),
        ..Default::default()
    };
    let query_str = analytics_gateway::item_stats::build_query(&query);
    assert!(query_str.contains(&format!(
        "average_badge_team0 <= {max_average_badge} AND average_badge_team1 <= \
         {max_average_badge}"
    )));
}

#[test]
fn test_build_item_stats_query_min_match_id() {
    let min_match_id = 10000;
    let query = ItemStatsQuery {
        min_match_id: Some(min_match_id),
        ..Default::default()
    };
    let query_str = analytics_gateway::item_stats::build_query(&query);
    assert!(query_str.contains(&format!("match_id >= {min_match_id}")));
}

#[test]
fn test_build_item_stats_query_max_match_id() {
    let max_match_id = 1000000;
    let query = ItemStatsQuery {
        max_match_id: Some(max_match_id),
        ..Default::default()
    };
    let query_str = analytics_gateway::item_stats::build_query(&query);
    assert!(query_str.contains(&format!("match_id <= {max_match_id}")));
}

#[test]
fn test_build_item_stats_query_account_id() {
    let account_id = 18373975;
    let query = ItemStatsQuery {
        account_ids: Some(vec![account_id]),
        ..Default::default()
    };
    let query_str = analytics_gateway::item_stats::build_query(&query);
    assert!(query_str.contains(&format!("account_id IN ({account_id})")));
}

#[test]
fn test_build_item_stats_query_min_matches() {
    let min_matches = 10;
    let query = ItemStatsQuery {
        min_matches: Some(min_matches),
        ..Default::default()
    };
    let query_str = analytics_gateway::item_stats::build_query(&query);
    assert!(query_str.contains(&format!("matches >= {min_matches}")));
}

#[test]
fn test_build_item_stats_query_hero_ids() {
    let hero_ids = vec![1, 2, 3];
    let query = ItemStatsQuery {
        hero_ids: Some(hero_ids.clone()),
        ..Default::default()
    };
    let query_str = analytics_gateway::item_stats::build_query(&query);
    assert!(query_str.contains(&format!(
        "hero_id IN ({})",
        hero_ids
            .iter()
            .map(ToString::to_string)
            .collect::<Vec<_>>()
            .join(", ")
    )));
}

#[test]
fn test_build_item_stats_query_min_bought_at_s() {
    let min_bought_at_s = 300;
    let query = ItemStatsQuery {
        min_bought_at_s: Some(min_bought_at_s),
        ..Default::default()
    };
    let query_str = analytics_gateway::item_stats::build_query(&query);
    assert!(query_str.contains(&format!("it.game_time_s >= {min_bought_at_s}")));
}

#[test]
fn test_build_item_stats_query_max_bought_at() {
    let max_bought_at_s = 600;
    let query = ItemStatsQuery {
        max_bought_at_s: Some(max_bought_at_s),
        ..Default::default()
    };
    let query_str = analytics_gateway::item_stats::build_query(&query);
    assert!(query_str.contains(&format!("it.game_time_s <= {max_bought_at_s}")));
}

#[test]
fn test_build_item_stats_query_game_phase_bucket() {
    let query = ItemStatsQuery {
        bucket: BucketQuery::GamePhase,
        ..Default::default()
    };
    let query_str = analytics_gateway::item_stats::build_query(&query);
    assert!(
        query_str.contains("multiIf(buy_time < 300, 0, buy_time < 1200, 1, buy_time < 1800, 2, 3)")
    );
    assert!(query_str.contains("it.game_time_s AS buy_time"));
}

#[test]
fn test_phase_id_to_name() {
    assert_eq!(item_timing_stats::phase_id_to_name(0), "early_game");
    assert_eq!(item_timing_stats::phase_id_to_name(1), "mid_game");
    assert_eq!(item_timing_stats::phase_id_to_name(2), "late_game");
    assert_eq!(item_timing_stats::phase_id_to_name(3), "very_late");
    assert_eq!(item_timing_stats::phase_id_to_name(99), "unknown");
}

#[test]
fn item_timing_stats_test_build_query_default() {
    let query = ItemTimingQuery::default();
    let query_str = item_timing_stats::build_query(&query);

    assert!(query_str.contains("multiIf(it.game_time_s < 300, 0, it.game_time_s < 1200, 1, it.game_time_s < 1800, 2, 3) AS buy_phase"));
    assert!(query_str.contains("HAVING matches >= 20"));
}

#[test]
fn item_timing_stats_test_build_query_with_hero_id() {
    let query = ItemTimingQuery {
        hero_id: Some(42),
        ..Default::default()
    };
    let query_str = item_timing_stats::build_query(&query);

    assert!(query_str.contains("hero_id = 42"));
}

#[test]
fn item_timing_stats_test_build_query_with_item_id() {
    let query = ItemTimingQuery {
        item_id: Some(123),
        ..Default::default()
    };
    let query_str = item_timing_stats::build_query(&query);

    assert!(query_str.contains("it.item_id = 123"));
}

#[test]
fn item_timing_stats_test_build_query_with_min_matches() {
    let query = ItemTimingQuery {
        min_matches: Some(50),
        ..Default::default()
    };
    let query_str = item_timing_stats::build_query(&query);

    assert!(query_str.contains("HAVING matches >= 50"));
}

#[test]
fn item_timing_stats_test_build_query_with_timestamp_range() {
    let query = ItemTimingQuery {
        min_unix_timestamp: Some(1672531200),
        max_unix_timestamp: Some(1675209599),
        ..Default::default()
    };
    let query_str = item_timing_stats::build_query(&query);

    assert!(query_str.contains("start_time >= 1672531200"));
    assert!(query_str.contains("start_time <= 1675209599"));
}

#[test]
fn item_timing_stats_test_build_query_with_badge_levels() {
    let query = ItemTimingQuery {
        min_average_badge: Some(61),
        max_average_badge: Some(112),
        ..Default::default()
    };
    let query_str = item_timing_stats::build_query(&query);

    assert!(query_str.contains("average_badge_team0 >= 61 AND average_badge_team1 >= 61"));
    assert!(query_str.contains("average_badge_team0 <= 112 AND average_badge_team1 <= 112"));
}

#[test]
fn item_upgrade_stats_test_build_query_default() {
    let query = ItemUpgradeQuery::default();
    let query_str = item_upgrade_stats::build_query(&query);

    assert!(query_str.contains("HAVING total_purchases >= 20"));
    assert!(query_str.contains("potential_upgrades"));
}

#[test]
fn item_upgrade_stats_test_build_query_with_hero_id() {
    let query = ItemUpgradeQuery {
        hero_id: Some(42),
        ..Default::default()
    };
    let query_str = item_upgrade_stats::build_query(&query);

    assert!(query_str.contains("hero_id = 42"));
}

#[test]
fn item_upgrade_stats_test_build_query_with_item_id() {
    let query = ItemUpgradeQuery {
        item_id: Some(123),
        ..Default::default()
    };
    let query_str = item_upgrade_stats::build_query(&query);

    assert!(query_str.contains("source_item = 123"));
}

#[test]
fn item_upgrade_stats_test_build_query_with_min_matches() {
    let query = ItemUpgradeQuery {
        min_matches: Some(50),
        ..Default::default()
    };
    let query_str = item_upgrade_stats::build_query(&query);

    assert!(query_str.contains("HAVING total_purchases >= 50"));
}

#[test]
fn item_upgrade_stats_test_build_query_with_timestamp_range() {
    let query = ItemUpgradeQuery {
        min_unix_timestamp: Some(1672531200),
        max_unix_timestamp: Some(1675209599),
        ..Default::default()
    };
    let query_str = item_upgrade_stats::build_query(&query);

    assert!(query_str.contains("start_time >= 1672531200"));
    assert!(query_str.contains("start_time <= 1675209599"));
}

#[test]
fn item_upgrade_stats_test_build_query_with_badge_levels() {
    let query = ItemUpgradeQuery {
        min_average_badge: Some(61),
        max_average_badge: Some(112),
        ..Default::default()
    };
    let query_str = item_upgrade_stats::build_query(&query);

    assert!(query_str.contains("average_badge_team0 >= 61 AND average_badge_team1 >= 61"));
    assert!(query_str.contains("average_badge_team0 <= 112 AND average_badge_team1 <= 112"));
}

#[test]
fn build_creator_query_modes() {
    let query = build_creator::BuildCreatorQuery {
        hero_id: 7,
        min_matches: None,
        min_unix_timestamp: Some(1672531200),
        max_unix_timestamp: None,
        min_average_badge: Some(61),
        max_average_badge: None,
        sort_by: build_creator::SortBy::WinRate,
        timing_mode: build_creator::TimingMode::Networth,
    };
    let query_str = build_creator::build_query(&query);
    assert!(query_str.contains("AND hero_id = 7"));
    assert!(query_str.contains("HAVING matches >= 50"));
    assert!(query_str.contains("start_time >= 1672531200"));
    assert!(query_str.contains("average_badge_team0 >= 61 AND average_badge_team1 >= 61"));
    assert!(query_str.contains("toUInt32(floor(net_worth_at_buy / 5000) * 5000)"));
    assert!(query_str.contains("net_worth_at_buy"));

    let game_time = build_creator::BuildCreatorQuery {
        timing_mode: build_creator::TimingMode::GameTime,
        min_matches: Some(25),
        min_unix_timestamp: None,
        min_average_badge: None,
        ..query
    };
    let query_str = build_creator::build_query(&game_time);
    assert!(query_str.contains("CASE WHEN buy_time < 300 THEN 0"));
    assert!(query_str.contains("HAVING matches >= 25"));
    assert!(!query_str.contains("net_worth_at_buy"));
}

#[test]
fn build_creator_bucket_keys() {
    assert_eq!(bucket_key(TimingMode::Networth, 5000), "5000");
    assert_eq!(bucket_key(TimingMode::Networth, 0), "0");
    assert_eq!(bucket_key(TimingMode::GameTime, 0), "0-5");
    assert_eq!(bucket_key(TimingMode::GameTime, 1), "5-10");
    assert_eq!(bucket_key(TimingMode::GameTime, 2), "10-20");
    assert_eq!(bucket_key(TimingMode::GameTime, 3), "20-30");
    assert_eq!(bucket_key(TimingMode::GameTime, 9), "30+");
}

#[test]
fn item_stats_select_clauses() {
    assert_eq!(BucketQuery::NoBucket.get_select_clause(), "toUInt32(0)");
    assert_eq!(BucketQuery::Hero.get_select_clause(), "hero_id");
    assert_eq!(
        BucketQuery::NetWorthBy2000.get_select_clause(),
        "toUInt32(floor(net_worth_at_buy / 2000) * 2000)"
    );
    assert_eq!(
        BucketQuery::default(),
        BucketQuery::NoBucket
    );
    assert_eq!(
        analytics_gateway::item_stats::default_min_matches(),
        Some(20)
    );
    assert_eq!(
        analytics_gateway::item_timing_stats::default_min_matches(),
        Some(20)
    );
    assert_eq!(
        analytics_gateway::item_upgrade_stats::default_min_matches(),
        Some(20)
    );
    assert_eq!(build_creator::default_min_matches(), Some(50));
}

#[test]
fn filter_unprotected_keeps_order() {
    let ids = vec![5, 6, 7, 8, 9];
    let protected = vec![6, 9];
    let kept = analytics_gateway::item_stats::filter_unprotected(&ids, &protected);
    assert_eq!(kept, vec![5, 7, 8]);
    let none_protected: Vec<u32> = vec![];
    assert_eq!(
        analytics_gateway::item_stats::filter_unprotected(&ids, &none_protected),
        ids
    );
}
