//! Shape normalization: clamping, defaulting, and the permissive sort
//! fallback.

use leaderboard::shape::{
    normalize_filter, normalize_input, parse_sort_by, parse_sort_order, LeaderboardFilter,
    LeaderboardInput, QueryRoot, ServiceConfig, SortBy, SortOrder, MAX_OFFSET, MAX_PAGE,
};

#[test]
fn default_input_gives_first_page_of_ten() {
    let c = ServiceConfig::standard();
    let s = normalize_input(&LeaderboardInput { limit: None, page: None }, &c);
    assert_eq!(s.limit, 10);
    assert_eq!(s.offset, 0);
    assert_eq!(s.sort_by, SortBy::Roi);
    assert_eq!(s.sort_order, SortOrder::Desc);
}

#[test]
fn limit_is_clamped_to_configured_maximum() {
    let c = ServiceConfig::standard();
    let s = normalize_input(&LeaderboardInput { limit: Some(100), page: Some(1) }, &c);
    assert_eq!(s.limit, 30);
    let s = normalize_input(&LeaderboardInput { limit: Some(0), page: Some(1) }, &c);
    assert_eq!(s.limit, 1);
    let s = normalize_input(&LeaderboardInput { limit: Some(-5), page: Some(1) }, &c);
    assert_eq!(s.limit, 1);
}

#[test]
fn page_is_one_based_and_clamped() {
    let c = ServiceConfig::standard();
    let s = normalize_input(&LeaderboardInput { limit: Some(10), page: Some(3) }, &c);
    assert_eq!(s.offset, 20);
    let s = normalize_input(&LeaderboardInput { limit: Some(10), page: Some(0) }, &c);
    assert_eq!(s.offset, 0);
    let s = normalize_input(&LeaderboardInput { limit: Some(10), page: Some(-7) }, &c);
    assert_eq!(s.offset, 0);
    let s = normalize_input(&LeaderboardInput { limit: Some(10), page: Some(i64::MAX) }, &c);
    assert_eq!(s.offset, (MAX_PAGE - 1) * 10);
}

#[test]
fn invalid_sort_strings_fall_back_to_roi_desc() {
    assert_eq!(parse_sort_by("pnl"), SortBy::Pnl);
    assert_eq!(parse_sort_by("volume"), SortBy::Volume);
    assert_eq!(parse_sort_by("roi"), SortBy::Roi);
    assert_eq!(parse_sort_by("wins"), SortBy::Roi);
    assert_eq!(parse_sort_by(""), SortBy::Roi);
    assert_eq!(parse_sort_by("PNL"), SortBy::Roi);
    assert_eq!(parse_sort_order("asc"), SortOrder::Asc);
    assert_eq!(parse_sort_order("desc"), SortOrder::Desc);
    assert_eq!(parse_sort_order("upwards"), SortOrder::Desc);
    assert_eq!(parse_sort_order(""), SortOrder::Desc);
}

#[test]
fn filter_normalization_takes_explicit_offset() {
    let c = ServiceConfig::standard();
    let f = LeaderboardFilter {
        limit: Some(20),
        offset: Some(40),
        sort_by: Some(String::from("pnl")),
        sort_order: Some(String::from("asc")),
    };
    let s = normalize_filter(&f, &c);
    assert_eq!(s.limit, 20);
    assert_eq!(s.offset, 40);
    assert_eq!(s.sort_by, SortBy::Pnl);
    assert_eq!(s.sort_order, SortOrder::Asc);

    let f = LeaderboardFilter {
        limit: None,
        offset: Some(-3),
        sort_by: Some(String::from("sharpe")),
        sort_order: None,
    };
    let s = normalize_filter(&f, &c);
    assert_eq!(s.limit, 10);
    assert_eq!(s.offset, 0);
    assert_eq!(s.sort_by, SortBy::Roi);
    assert_eq!(s.sort_order, SortOrder::Desc);

    let f = LeaderboardFilter { limit: None, offset: Some(i64::MAX), sort_by: None, sort_order: None };
    let s = normalize_filter(&f, &c);
    assert_eq!(s.offset, MAX_OFFSET);
}

#[test]
fn default_filter_is_all_absent() {
    let f = LeaderboardFilter::default();
    assert!(f.limit.is_none());
    assert!(f.offset.is_none());
    assert!(f.sort_by.is_none());
    assert!(f.sort_order.is_none());
}

#[test]
fn query_root_plans_a_normalized_read() {
    let c = ServiceConfig::standard();
    let root = QueryRoot;
    let s = root.leaderboard(&LeaderboardInput { limit: Some(50), page: Some(2) }, &c);
    assert_eq!(s.limit, 30);
    assert_eq!(s.offset, 30);
    assert_eq!(s.sort_by, SortBy::Roi);
    assert_eq!(s.sort_order, SortOrder::Desc);
}
