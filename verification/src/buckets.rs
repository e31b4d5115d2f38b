//! Bucket functions: monotonic step functions mapping a raw metric count
//! to a score in whole points via fixed inclusive-range breakpoints.

use vstd::prelude::*;

verus! {

/// Commit-count bucket, in points.
pub open spec fn spec_commit_bucket(n: u64) -> u32 {
    if n <= 10 {
        20
    } else if n <= 50 {
        40
    } else if n <= 200 {
        60
    } else if n <= 500 {
        80
    } else {
        95
    }
}

/// Maps a 30-day commit total to its bucket score.
pub fn commit_bucket(n: u64) -> (s: u32)
    ensures
        s == spec_commit_bucket(n),
{
    if n <= 10 {
        20
    } else if n <= 50 {
        40
    } else if n <= 200 {
        60
    } else if n <= 500 {
        80
    } else {
        95
    }
}

/// Contributor-count bucket, in points.
pub open spec fn spec_contributor_bucket(n: u64) -> u32 {
    if n <= 2 {
        20
    } else if n <= 10 {
        40
    } else if n <= 30 {
        60
    } else if n <= 100 {
        80
    } else {
        95
    }
}

/// Maps a 30-day distinct-contributor total to its bucket score.
pub fn contributor_bucket(n: u64) -> (s: u32)
    ensures
        s == spec_contributor_bucket(n),
{
    if n <= 2 {
        20
    } else if n <= 10 {
        40
    } else if n <= 30 {
        60
    } else if n <= 100 {
        80
    } else {
        95
    }
}

/// Star-count bucket, in points.
pub open spec fn spec_star_bucket(n: u64) -> u32 {
    if n <= 100 {
        20
    } else if n <= 1000 {
        40
    } else if n <= 5000 {
        60
    } else if n <= 20000 {
        80
    } else {
        95
    }
}

/// Maps a star total to its bucket score.
pub fn star_bucket(n: u64) -> (s: u32)
    ensures
        s == spec_star_bucket(n),
{
    if n <= 100 {
        20
    } else if n <= 1000 {
        40
    } else if n <= 5000 {
        60
    } else if n <= 20000 {
        80
    } else {
        95
    }
}

/// Fork-count bucket, in points.
pub open spec fn spec_fork_bucket(n: u64) -> u32 {
    if n <= 10 {
        20
    } else if n <= 100 {
        40
    } else if n <= 500 {
        60
    } else if n <= 2000 {
        80
    } else {
        95
    }
}

/// Maps a fork total to its bucket score.
pub fn fork_bucket(n: u64) -> (s: u32)
    ensures
        s == spec_fork_bucket(n),
{
    if n <= 10 {
        20
    } else if n <= 100 {
        40
    } else if n <= 500 {
        60
    } else if n <= 2000 {
        80
    } else {
        95
    }
}

/// Subscriber-count bucket, in points.
pub open spec fn spec_subscriber_bucket(n: u64) -> u32 {
    if n <= 1000 {
        20
    } else if n <= 5000 {
        30
    } else if n <= 15000 {
        45
    } else if n <= 50000 {
        60
    } else if n <= 100000 {
        75
    } else if n <= 200000 {
        85
    } else {
        95
    }
}

/// Maps a summed social subscriber count to its bucket score.
pub fn subscriber_bucket(n: u64) -> (s: u32)
    ensures
        s == spec_subscriber_bucket(n),
{
    if n <= 1000 {
        20
    } else if n <= 5000 {
        30
    } else if n <= 15000 {
        45
    } else if n <= 50000 {
        60
    } else if n <= 100000 {
        75
    } else if n <= 200000 {
        85
    } else {
        95
    }
}

/// 30-day post-count bucket, in points.
pub open spec fn spec_post_bucket(n: u64) -> u32 {
    if n <= 10 {
        20
    } else if n <= 30 {
        40
    } else if n <= 60 {
        60
    } else if n <= 100 {
        80
    } else {
        95
    }
}

/// Maps a summed 30-day post count to its bucket score.
pub fn post_bucket(n: u64) -> (s: u32)
    ensures
        s == spec_post_bucket(n),
{
    if n <= 10 {
        20
    } else if n <= 30 {
        40
    } else if n <= 60 {
        60
    } else if n <= 100 {
        80
    } else {
        95
    }
}

/// Open-issue bucket, in points. Inverted: fewer open issues is better.
pub open spec fn spec_issue_bucket(n: u64) -> u32 {
    if n <= 10 {
        90
    } else if n <= 50 {
        80
    } else if n <= 200 {
        70
    } else if n <= 500 {
        50
    } else if n <= 1000 {
        30
    } else {
        20
    }
}

/// Maps an open-issue total to its bucket score.
pub fn issue_bucket(n: u64) -> (s: u32)
    ensures
        s == spec_issue_bucket(n),
{
    if n <= 10 {
        90
    } else if n <= 50 {
        80
    } else if n <= 200 {
        70
    } else if n <= 500 {
        50
    } else if n <= 1000 {
        30
    } else {
        20
    }
}

/// Open-pull-request bucket, in points. Inverted: fewer is better.
pub open spec fn spec_pr_bucket(n: u64) -> u32 {
    if n <= 5 {
        90
    } else if n <= 20 {
        80
    } else if n <= 50 {
        70
    } else if n <= 100 {
        50
    } else {
        30
    }
}

/// Maps an open-pull-request total to its bucket score.
pub fn pr_bucket(n: u64) -> (s: u32)
    ensures
        s == spec_pr_bucket(n),
{
    if n <= 5 {
        90
    } else if n <= 20 {
        80
    } else if n <= 50 {
        70
    } else if n <= 100 {
        50
    } else {
        30
    }
}

/// Commit-recency bucket over whole days since the most recent commit,
/// in points. Inverted: a more recent commit is better. A negative day
/// count (a commit timestamp in the future) falls to the lowest score.
pub open spec fn spec_recency_bucket(days: i64) -> u32 {
    if 0 <= days && days <= 7 {
        100
    } else if 8 <= days && days <= 30 {
        80
    } else if 31 <= days && days <= 90 {
        60
    } else if 91 <= days && days <= 180 {
        40
    } else {
        20
    }
}

/// Maps days-since-last-commit to its bucket score.
pub fn recency_bucket(days: i64) -> (s: u32)
    ensures
        s == spec_recency_bucket(days),
{
    if 0 <= days && days <= 7 {
        100
    } else if 8 <= days && days <= 30 {
        80
    } else if 31 <= days && days <= 90 {
        60
    } else if 91 <= days && days <= 180 {
        40
    } else {
        20
    }
}

/// Every bucket value lies in the valid zero-to-one-hundred point range.
pub proof fn lemma_bucket_ranges(n: u64, days: i64)
    ensures
        20 <= spec_commit_bucket(n) <= 95,
        20 <= spec_contributor_bucket(n) <= 95,
        20 <= spec_star_bucket(n) <= 95,
        20 <= spec_fork_bucket(n) <= 95,
        20 <= spec_subscriber_bucket(n) <= 95,
        20 <= spec_post_bucket(n) <= 95,
        20 <= spec_issue_bucket(n) <= 90,
        30 <= spec_pr_bucket(n) <= 90,
        20 <= spec_recency_bucket(days) <= 100,
{
}

/// Growth buckets are monotonically non-decreasing in their metric: a
/// larger raw count never produces a smaller score.
pub proof fn lemma_growth_buckets_monotone(a: u64, b: u64)
    requires
        a <= b,
    ensures
        spec_commit_bucket(a) <= spec_commit_bucket(b),
        spec_contributor_bucket(a) <= spec_contributor_bucket(b),
        spec_star_bucket(a) <= spec_star_bucket(b),
        spec_fork_bucket(a) <= spec_fork_bucket(b),
        spec_subscriber_bucket(a) <= spec_subscriber_bucket(b),
        spec_post_bucket(a) <= spec_post_bucket(b),
{
}

/// Inverted buckets are monotonically non-increasing in their metric: a
/// larger open-issue or open-pull-request backlog never produces a
/// larger score.
pub proof fn lemma_inverted_buckets_antitone(a: u64, b: u64)
    requires
        a <= b,
    ensures
        spec_issue_bucket(b) <= spec_issue_bucket(a),
        spec_pr_bucket(b) <= spec_pr_bucket(a),
{
}

/// The recency bucket is monotonically non-increasing over non-negative
/// day counts: the longer ago the last commit, the lower the score.
/// (Day counts are non-negative whenever the last-commit timestamp does
/// not lie in the future.)
pub proof fn lemma_recency_bucket_antitone(a: i64, b: i64)
    requires
        0 <= a <= b,
    ensures
        spec_recency_bucket(b) <= spec_recency_bucket(a),
{
}

} // verus!
