//! Ranking and history views, the API envelope and the collector
//! helpers.

use distrovitals::api::{default_days, ApiResponse};
use distrovitals::collector::{commit_window_totals, count_posts_since, rate_limit_wait};
use distrovitals::metrics::RawMetrics;
use distrovitals::models::{AnalyzerError, DatabaseError, Distribution, HealthScore, Trend};
use distrovitals::rankings::{build_rankings, history_window, sort_scores_descending};

const DAY: i64 = 86400;
const NOW: i64 = 1_700_000_000;

fn distro(id: i64, slug: &str) -> Distribution {
    Distribution {
        id,
        name: String::from(slug.to_uppercase()),
        slug: String::from(slug),
        homepage: None,
        github_org: Some(String::from(slug)),
        gitlab_group: None,
        subreddit: None,
        description: Some(String::from("a distribution")),
        created_at: NOW - 400 * DAY,
        updated_at: NOW - DAY,
    }
}

fn score(distro_id: i64, overall: u32, calculated_at: i64) -> HealthScore {
    HealthScore {
        id: distro_id,
        distro_id,
        overall_score: overall,
        development_score: overall,
        community_score: overall,
        maintenance_score: overall,
        trend: Trend::Stable,
        calculated_at,
    }
}

#[test]
fn scores_sort_descending_by_overall() {
    let scores = vec![score(1, 40_000, NOW), score(2, 70_000, NOW), score(3, 55_000, NOW)];
    let sorted = sort_scores_descending(scores);
    let overall: Vec<u32> = sorted.iter().map(|s| s.overall_score).collect();
    assert_eq!(overall, vec![70_000, 55_000, 40_000]);
}

#[test]
fn rankings_assign_positions_by_score_order() {
    let distros = vec![distro(1, "arch"), distro(2, "debian"), distro(3, "mint")];
    let metrics = vec![RawMetrics::default(), RawMetrics::default(), RawMetrics::default()];
    let scores = vec![score(2, 70_000, NOW), score(1, 40_000, NOW)];
    let rankings = build_rankings(&distros, &metrics, &scores);
    assert_eq!(rankings.len(), 3);
    assert_eq!(rankings[0].slug, "debian");
    assert_eq!(rankings[0].rank, 1);
    assert_eq!(rankings[0].overall_score, 70_000);
    assert_eq!(rankings[1].slug, "arch");
    assert_eq!(rankings[1].rank, 2);
    // The unscored distribution is appended after all ranked entries.
    assert_eq!(rankings[2].slug, "mint");
    assert_eq!(rankings[2].rank, 3);
    assert_eq!(rankings[2].overall_score, 0);
    assert_eq!(rankings[2].trend, Trend::Unknown);
    assert_eq!(rankings[2].metrics.repos_tracked, 0);
}

#[test]
fn rankings_skip_scores_of_unknown_distributions() {
    let distros = vec![distro(1, "arch")];
    let metrics = vec![RawMetrics::default()];
    let scores = vec![score(9, 90_000, NOW), score(1, 40_000, NOW)];
    let rankings = build_rankings(&distros, &metrics, &scores);
    assert_eq!(rankings.len(), 1);
    assert_eq!(rankings[0].slug, "arch");
    // The rank keeps the record's position in the score list.
    assert_eq!(rankings[0].rank, 2);
}

#[test]
fn rankings_for_no_scores_keep_input_order() {
    let distros = vec![distro(1, "arch"), distro(2, "debian")];
    let metrics = vec![RawMetrics::default(), RawMetrics::default()];
    let rankings = build_rankings(&distros, &metrics, &Vec::new());
    assert_eq!(rankings.len(), 2);
    assert_eq!(rankings[0].slug, "arch");
    assert_eq!(rankings[0].rank, 1);
    assert_eq!(rankings[1].slug, "debian");
    assert_eq!(rankings[1].rank, 2);
}

#[test]
fn history_window_filters_and_orders_ascending() {
    let records = vec![
        score(1, 40_000, NOW - 2 * DAY),
        score(1, 45_000, NOW - 40 * DAY),
        score(1, 50_000, NOW - 10 * DAY),
    ];
    let h = history_window(&records, NOW, 30);
    let times: Vec<i64> = h.iter().map(|s| s.calculated_at).collect();
    assert_eq!(times, vec![NOW - 10 * DAY, NOW - 2 * DAY]);
}

#[test]
fn history_window_of_zero_days_is_empty() {
    let records = vec![score(1, 40_000, NOW - 2 * DAY)];
    let h = history_window(&records, NOW, 0);
    assert!(h.is_empty());
}

#[test]
fn api_response_constructors() {
    let ok: ApiResponse<u32> = ApiResponse::ok(7);
    assert!(ok.success);
    assert_eq!(ok.data, Some(7));
    assert!(ok.error.is_none());

    let err: ApiResponse<u32> = ApiResponse::err(String::from("boom"));
    assert!(!err.success);
    assert!(err.data.is_none());
    assert_eq!(err.error.as_deref(), Some("boom"));
}

#[test]
fn default_history_window_is_thirty_days() {
    assert_eq!(default_days(), 30);
}

#[test]
fn commit_window_totals_sum_trailing_four_weeks() {
    let weekly = vec![1, 2, 3, 4, 5, 6];
    let (recent, total) = commit_window_totals(&weekly);
    assert_eq!(recent, 18);
    assert_eq!(total, 21);

    let short = vec![7, 8];
    let (recent, total) = commit_window_totals(&short);
    assert_eq!(recent, 15);
    assert_eq!(total, 15);
}

#[test]
fn post_counting_respects_cutoff() {
    let times = vec![NOW - 40 * DAY, NOW - 10 * DAY, NOW - DAY, NOW - 31 * DAY];
    assert_eq!(count_posts_since(&times, NOW - 30 * DAY), 2);
    assert_eq!(count_posts_since(&Vec::new(), NOW), 0);
}

#[test]
fn analyzer_errors_carry_storage_failures() {
    let e = AnalyzerError::Database(DatabaseError::NotFound(String::from("Distribution: arch")));
    assert!(matches!(e, AnalyzerError::Database(DatabaseError::NotFound(_))));
    let e = AnalyzerError::InsufficientData;
    assert!(matches!(e, AnalyzerError::InsufficientData));
}

#[test]
fn rate_limit_wait_saturates_at_zero() {
    assert_eq!(rate_limit_wait(1000, 400), 600);
    assert_eq!(rate_limit_wait(400, 1000), 0);
    assert_eq!(rate_limit_wait(400, 400), 0);
}
