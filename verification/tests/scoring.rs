//! Scoring engine behaviour: bucket breakpoints, neutral defaults,
//! the overall blend, trend thresholds and the end-to-end scenarios.

use distrovitals::analyzer::Analyzer;
use distrovitals::buckets::{commit_bucket, contributor_bucket, fork_bucket, issue_bucket,
    post_bucket, pr_bucket, recency_bucket, star_bucket, subscriber_bucket};
use distrovitals::models::{CommunitySnapshot, GithubSnapshot, HealthScore, Trend};

const DAY: i64 = 86400;
const NOW: i64 = 1_700_000_000;

fn gh(
    stars: u64,
    forks: u64,
    open_issues: u64,
    open_prs: u64,
    commits_30d: u64,
    contributors_30d: u64,
    last_commit_at: Option<i64>,
) -> GithubSnapshot {
    GithubSnapshot {
        id: 1,
        distro_id: 7,
        repo_name: String::from("org/repo"),
        stars,
        forks,
        open_issues,
        open_prs,
        commits_30d,
        commits_365d: commits_30d,
        contributors_30d,
        last_commit_at,
        collected_at: NOW,
    }
}

fn community(source: &str, users: Option<u64>, posts: Option<u64>) -> CommunitySnapshot {
    CommunitySnapshot {
        id: 1,
        distro_id: 7,
        source: String::from(source),
        active_users_30d: users,
        posts_30d: posts,
        collected_at: NOW,
    }
}

fn prior(overall: u32) -> HealthScore {
    HealthScore {
        id: 1,
        distro_id: 7,
        overall_score: overall,
        development_score: overall,
        community_score: overall,
        maintenance_score: overall,
        trend: Trend::Stable,
        calculated_at: NOW - DAY,
    }
}

#[test]
fn commit_buckets_at_breakpoints() {
    assert_eq!(commit_bucket(0), 20);
    assert_eq!(commit_bucket(10), 20);
    assert_eq!(commit_bucket(11), 40);
    assert_eq!(commit_bucket(50), 40);
    assert_eq!(commit_bucket(51), 60);
    assert_eq!(commit_bucket(200), 60);
    assert_eq!(commit_bucket(201), 80);
    assert_eq!(commit_bucket(500), 80);
    assert_eq!(commit_bucket(501), 95);
}

#[test]
fn contributor_buckets_at_breakpoints() {
    assert_eq!(contributor_bucket(2), 20);
    assert_eq!(contributor_bucket(3), 40);
    assert_eq!(contributor_bucket(10), 40);
    assert_eq!(contributor_bucket(11), 60);
    assert_eq!(contributor_bucket(30), 60);
    assert_eq!(contributor_bucket(31), 80);
    assert_eq!(contributor_bucket(100), 80);
    assert_eq!(contributor_bucket(101), 95);
}

#[test]
fn star_and_fork_buckets_at_breakpoints() {
    assert_eq!(star_bucket(100), 20);
    assert_eq!(star_bucket(101), 40);
    assert_eq!(star_bucket(1000), 40);
    assert_eq!(star_bucket(1001), 60);
    assert_eq!(star_bucket(5000), 60);
    assert_eq!(star_bucket(5001), 80);
    assert_eq!(star_bucket(20000), 80);
    assert_eq!(star_bucket(20001), 95);
    assert_eq!(fork_bucket(10), 20);
    assert_eq!(fork_bucket(11), 40);
    assert_eq!(fork_bucket(100), 40);
    assert_eq!(fork_bucket(101), 60);
    assert_eq!(fork_bucket(500), 60);
    assert_eq!(fork_bucket(501), 80);
    assert_eq!(fork_bucket(2000), 80);
    assert_eq!(fork_bucket(2001), 95);
}

#[test]
fn subscriber_and_post_buckets_at_breakpoints() {
    assert_eq!(subscriber_bucket(1000), 20);
    assert_eq!(subscriber_bucket(1001), 30);
    assert_eq!(subscriber_bucket(5001), 45);
    assert_eq!(subscriber_bucket(15001), 60);
    assert_eq!(subscriber_bucket(50001), 75);
    assert_eq!(subscriber_bucket(100001), 85);
    assert_eq!(subscriber_bucket(200001), 95);
    assert_eq!(post_bucket(10), 20);
    assert_eq!(post_bucket(11), 40);
    assert_eq!(post_bucket(31), 60);
    assert_eq!(post_bucket(61), 80);
    assert_eq!(post_bucket(101), 95);
}

#[test]
fn inverted_buckets_at_breakpoints() {
    assert_eq!(issue_bucket(10), 90);
    assert_eq!(issue_bucket(11), 80);
    assert_eq!(issue_bucket(51), 70);
    assert_eq!(issue_bucket(201), 50);
    assert_eq!(issue_bucket(501), 30);
    assert_eq!(issue_bucket(1001), 20);
    assert_eq!(pr_bucket(5), 90);
    assert_eq!(pr_bucket(6), 80);
    assert_eq!(pr_bucket(21), 70);
    assert_eq!(pr_bucket(51), 50);
    assert_eq!(pr_bucket(101), 30);
    assert_eq!(recency_bucket(7), 100);
    assert_eq!(recency_bucket(8), 80);
    assert_eq!(recency_bucket(31), 60);
    assert_eq!(recency_bucket(91), 40);
    assert_eq!(recency_bucket(181), 20);
}

#[test]
fn development_score_crosses_commit_breakpoint() {
    let ten = vec![gh(0, 0, 0, 0, 10, 0, None)];
    let eleven = vec![gh(0, 0, 0, 0, 11, 0, None)];
    // 0.6 x 20 + 0.4 x 20 = 20.0 and 0.6 x 40 + 0.4 x 20 = 32.0
    assert_eq!(Analyzer::calculate_development_score(&ten), 20_000);
    assert_eq!(Analyzer::calculate_development_score(&eleven), 32_000);
}

#[test]
fn empty_inputs_yield_neutral_sub_scores() {
    let no_github: Vec<GithubSnapshot> = Vec::new();
    let no_community: Vec<CommunitySnapshot> = Vec::new();
    assert_eq!(Analyzer::calculate_development_score(&no_github), 50_000);
    assert_eq!(Analyzer::calculate_community_score(&no_github, &no_community), 50_000);
    assert_eq!(Analyzer::calculate_maintenance_score(&no_github, NOW), 50_000);
}

#[test]
fn social_component_absent_without_matching_sources() {
    let forum_only = vec![community("forum:general", Some(9_999_999), Some(500))];
    assert_eq!(Analyzer::calculate_reddit_score(&forum_only), 0);
    // With no social signal the community score is the platform component
    // alone, not a blend with zero.
    let github = vec![gh(50, 2, 0, 0, 0, 0, None)];
    assert_eq!(Analyzer::calculate_community_score(&github, &forum_only), 20_000);
}

#[test]
fn social_component_blends_at_fixed_weights() {
    // Platform 20.0; social 0.7 x 30 + 0.3 x 40 = 33.0;
    // community = 0.4 x 20 + 0.6 x 33 = 27.8.
    let github = vec![gh(50, 2, 0, 0, 0, 0, None)];
    let social = vec![community("reddit:r/test", Some(1001), Some(11))];
    assert_eq!(Analyzer::calculate_reddit_score(&social), 33_000);
    assert_eq!(Analyzer::calculate_community_score(&github, &social), 27_800);
}

#[test]
fn maintenance_without_commit_timestamp_uses_neutral_recency() {
    // 0.3 x 90 + 0.3 x 90 + 0.4 x 50 = 74.0
    let github = vec![gh(0, 0, 3, 1, 0, 0, None)];
    assert_eq!(Analyzer::calculate_maintenance_score(&github, NOW), 74_000);
}

#[test]
fn trend_thresholds_at_exactly_two_points() {
    assert_eq!(Analyzer::determine_trend(45_000, None), Trend::Stable);
    let p = prior(42_200);
    assert_eq!(Analyzer::determine_trend(44_200, Some(&p)), Trend::Stable);
    assert_eq!(Analyzer::determine_trend(44_201, Some(&p)), Trend::Up);
    assert_eq!(Analyzer::determine_trend(40_200, Some(&p)), Trend::Stable);
    assert_eq!(Analyzer::determine_trend(40_199, Some(&p)), Trend::Down);
    assert_eq!(Analyzer::determine_trend(45_000, Some(&p)), Trend::Up);
}

#[test]
fn trend_labels() {
    assert_eq!(Trend::Up.label(), "up");
    assert_eq!(Trend::Down.label(), "down");
    assert_eq!(Trend::Stable.label(), "stable");
    assert_eq!(Trend::Unknown.label(), "unknown");
}

#[test]
fn scenario_first_run_one_snapshot() {
    // One activity snapshot: 5 commits, 1 contributor, 50 stars, 2 forks,
    // 3 issues, 1 open PR, last commit 2 days ago; no community data.
    let github = vec![gh(50, 2, 3, 1, 5, 1, Some(NOW - 2 * DAY))];
    let no_community: Vec<CommunitySnapshot> = Vec::new();
    let record = Analyzer::calculate_health_score(&github, &no_community, None, 7, NOW);
    assert_eq!(record.distro_id, 7);
    assert_eq!(record.development_score, 20_000);
    assert_eq!(record.community_score, 20_000);
    assert_eq!(record.maintenance_score, 94_000);
    // overall = 0.4 x 20 + 0.3 x 20 + 0.3 x 94 = 42.2
    assert_eq!(record.overall_score, 42_200);
    assert_eq!(record.trend, Trend::Stable);
}

#[test]
fn scenario_second_run_improves() {
    // Next run: 20 contributors now and a larger PR backlog; the overall
    // score computes to 45.0 against the prior 42.2, a gain of 2.8.
    let github = vec![gh(50, 2, 3, 60, 5, 20, Some(NOW - 2 * DAY))];
    let no_community: Vec<CommunitySnapshot> = Vec::new();
    let p = prior(42_200);
    let record = Analyzer::calculate_health_score(&github, &no_community, Some(&p), 7, NOW);
    assert_eq!(record.development_score, 36_000);
    assert_eq!(record.community_score, 20_000);
    assert_eq!(record.maintenance_score, 82_000);
    assert_eq!(record.overall_score, 45_000);
    assert_eq!(record.trend, Trend::Up);
}

#[test]
fn scenario_no_snapshots_at_all() {
    let no_github: Vec<GithubSnapshot> = Vec::new();
    let no_community: Vec<CommunitySnapshot> = Vec::new();
    let record = Analyzer::calculate_health_score(&no_github, &no_community, None, 7, NOW);
    assert_eq!(record.development_score, 50_000);
    assert_eq!(record.community_score, 50_000);
    assert_eq!(record.maintenance_score, 50_000);
    assert_eq!(record.overall_score, 50_000);
    assert_eq!(record.trend, Trend::Stable);
}

#[test]
fn sub_scores_are_order_independent() {
    let a = gh(120, 15, 12, 7, 30, 2, Some(NOW - 20 * DAY));
    let b = gh(900, 90, 45, 1, 25, 9, Some(NOW - 3 * DAY));
    let forward = vec![a.clone(), b.clone()];
    let backward = vec![b, a];
    assert_eq!(
        Analyzer::calculate_development_score(&forward),
        Analyzer::calculate_development_score(&backward)
    );
    let social = vec![
        community("reddit:r/one", Some(4_000), Some(12)),
        community("reddit:r/two", Some(2_000), Some(25)),
    ];
    let swapped = vec![social[1].clone(), social[0].clone()];
    assert_eq!(
        Analyzer::calculate_community_score(&forward, &social),
        Analyzer::calculate_community_score(&backward, &swapped)
    );
    assert_eq!(
        Analyzer::calculate_maintenance_score(&forward, NOW),
        Analyzer::calculate_maintenance_score(&backward, NOW)
    );
}

#[test]
fn maintenance_uses_most_recent_commit_across_repos() {
    let github = vec![
        gh(0, 0, 3, 1, 0, 0, Some(NOW - 200 * DAY)),
        gh(0, 0, 0, 0, 0, 0, Some(NOW - 2 * DAY)),
    ];
    // 0.3 x 90 + 0.3 x 90 + 0.4 x 100 = 94.0
    assert_eq!(Analyzer::calculate_maintenance_score(&github, NOW), 94_000);
}
