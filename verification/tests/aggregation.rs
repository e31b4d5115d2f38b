//! Aggregation layer behaviour: summed totals, order independence,
//! social source matching and release recency.

use distrovitals::metrics::RawMetrics;
use distrovitals::models::{CommunitySnapshot, GithubSnapshot, ReleaseSnapshot};

const DAY: i64 = 86400;
const NOW: i64 = 1_700_000_000;

fn repo(name: &str, stars: u64) -> GithubSnapshot {
    GithubSnapshot {
        id: 1,
        distro_id: 7,
        repo_name: String::from(name),
        stars,
        forks: 2 * stars,
        open_issues: 3,
        open_prs: 1,
        commits_30d: 5,
        commits_365d: 60,
        contributors_30d: 4,
        last_commit_at: Some(NOW - DAY),
        collected_at: NOW,
    }
}

fn community(source: &str, users: Option<u64>, posts: Option<u64>) -> CommunitySnapshot {
    CommunitySnapshot {
        id: 1,
        distro_id: 7,
        source: String::from(source),
        active_users_30d: users,
        posts_30d: posts,
        collected_at: NOW,
    }
}

fn release(tag: &str, published_at: Option<i64>, prerelease: bool) -> ReleaseSnapshot {
    ReleaseSnapshot {
        id: 1,
        distro_id: 7,
        repo_name: String::from("org/repo"),
        tag_name: String::from(tag),
        release_name: None,
        published_at,
        is_prerelease: prerelease,
        collected_at: NOW,
    }
}

#[test]
fn totals_are_summed_across_repositories() {
    let snaps = vec![repo("org/a", 100), repo("org/b", 50)];
    let m = RawMetrics::from_github_snapshots(&snaps);
    assert_eq!(m.repos_tracked, 2);
    assert_eq!(m.total_stars, 150);
    assert_eq!(m.total_forks, 300);
    assert_eq!(m.total_contributors, 8);
    assert_eq!(m.commits_30d, 10);
    assert_eq!(m.open_issues, 6);
    assert_eq!(m.open_prs, 2);
    assert_eq!(m.total_releases, 0);
    assert_eq!(m.releases_30d, 0);
    assert!(m.latest_release.is_none());
    assert!(m.subreddit.is_none());
}

#[test]
fn totals_are_order_independent() {
    let forward = vec![repo("org/a", 100), repo("org/b", 50)];
    let backward = vec![repo("org/b", 50), repo("org/a", 100)];
    let ma = RawMetrics::from_github_snapshots(&forward);
    let mb = RawMetrics::from_github_snapshots(&backward);
    assert_eq!(ma.total_stars, 150);
    assert_eq!(mb.total_stars, 150);
    assert_eq!(ma.total_forks, mb.total_forks);
    assert_eq!(ma.commits_30d, mb.commits_30d);
    assert_eq!(ma.open_issues, mb.open_issues);
}

#[test]
fn empty_input_yields_zero_totals_without_error() {
    let snaps: Vec<GithubSnapshot> = Vec::new();
    let m = RawMetrics::from_github_snapshots(&snaps);
    assert_eq!(m.repos_tracked, 0);
    assert_eq!(m.total_stars, 0);
    assert_eq!(m.commits_30d, 0);
}

#[test]
fn community_sums_only_recognized_sources() {
    let snaps = vec![
        community("forum:general", Some(100_000), Some(999)),
        community("reddit:r/archlinux", Some(50_000), Some(30)),
        community("reddit:r/archlinux32", Some(1_000), None),
    ];
    let m = RawMetrics::from_github_snapshots(&Vec::new()).with_community(&snaps);
    assert_eq!(m.reddit_subscribers, 51_000);
    assert_eq!(m.reddit_posts_30d, 30);
    assert_eq!(m.subreddit.as_deref(), Some("archlinux"));
}

#[test]
fn community_channel_name_comes_from_first_well_formed_source() {
    let snaps = vec![
        community("reddit:odd", Some(10), Some(1)),
        community("reddit:r/debian", Some(20), Some(2)),
        community("reddit:r/ubuntu", Some(30), Some(3)),
    ];
    let m = RawMetrics::from_github_snapshots(&Vec::new()).with_community(&snaps);
    // The malformed source still counts toward the sums but cannot name
    // the channel; the first well-formed one does.
    assert_eq!(m.reddit_subscribers, 60);
    assert_eq!(m.reddit_posts_30d, 6);
    assert_eq!(m.subreddit.as_deref(), Some("debian"));
}

#[test]
fn community_without_sources_leaves_fields_absent() {
    let m = RawMetrics::from_github_snapshots(&Vec::new()).with_community(&Vec::new());
    assert_eq!(m.reddit_subscribers, 0);
    assert_eq!(m.reddit_posts_30d, 0);
    assert!(m.subreddit.is_none());
}

#[test]
fn releases_count_only_recent_full_releases() {
    let snaps = vec![
        release("v1.0", Some(NOW - 100 * DAY), false),
        release("v1.1", Some(NOW - 10 * DAY), false),
        release("v1.2-rc1", Some(NOW - DAY), true),
        release("v0.9", None, false),
    ];
    let m = RawMetrics::from_github_snapshots(&Vec::new()).with_releases(&snaps, NOW);
    assert_eq!(m.total_releases, 4);
    assert_eq!(m.releases_30d, 1);
    assert_eq!(m.latest_release.as_deref(), Some("v1.1"));
    assert_eq!(m.days_since_release, Some(10));
}

#[test]
fn latest_release_skips_prereleases() {
    let snaps = vec![
        release("v2.0-beta", Some(NOW - DAY), true),
        release("v1.9", Some(NOW - 40 * DAY), false),
    ];
    let m = RawMetrics::from_github_snapshots(&Vec::new()).with_releases(&snaps, NOW);
    assert_eq!(m.releases_30d, 0);
    assert_eq!(m.latest_release.as_deref(), Some("v1.9"));
    assert_eq!(m.days_since_release, Some(40));
}

#[test]
fn latest_release_without_publish_date_has_no_age() {
    let snaps = vec![release("rolling", None, false)];
    let m = RawMetrics::from_github_snapshots(&Vec::new()).with_releases(&snaps, NOW);
    assert_eq!(m.total_releases, 1);
    assert_eq!(m.latest_release.as_deref(), Some("rolling"));
    assert_eq!(m.days_since_release, None);
}

#[test]
fn no_releases_leave_fields_absent() {
    let m = RawMetrics::from_github_snapshots(&Vec::new()).with_releases(&Vec::new(), NOW);
    assert_eq!(m.total_releases, 0);
    assert_eq!(m.releases_30d, 0);
    assert!(m.latest_release.is_none());
    assert!(m.days_since_release.is_none());
}

#[test]
fn default_metrics_are_all_absent() {
    let m = RawMetrics::default();
    assert_eq!(m.repos_tracked, 0);
    assert_eq!(m.total_stars, 0);
    assert!(m.latest_release.is_none());
    assert!(m.subreddit.is_none());
}
