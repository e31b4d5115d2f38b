//! The health scoring engine: a pure function from one distribution's
//! latest snapshots and previous score record to a new score record with
//! three sub-scores, a weighted overall score and a trend label.
//!
//! Every sub-score degrades to the fixed neutral value of fifty points
//! when its required snapshot set is empty: absent data is not treated
//! as bad data. The engine has no failure modes.

use vstd::prelude::*;
use crate::buckets::{commit_bucket, contributor_bucket, fork_bucket, issue_bucket, post_bucket,
    pr_bucket, recency_bucket, spec_commit_bucket, spec_contributor_bucket, spec_fork_bucket,
    spec_issue_bucket, spec_post_bucket, spec_pr_bucket, spec_recency_bucket, spec_star_bucket,
    spec_subscriber_bucket, star_bucket, subscriber_bucket};
use crate::metrics::{days_between, github_totals, reddit_totals, spec_days_between,
    spec_has_reddit, spec_reddit_posts, spec_reddit_subscribers, spec_total_commits_30d,
    spec_total_contributors, spec_total_forks, spec_total_issues, spec_total_prs,
    spec_total_stars};
use crate::models::{CommunitySnapshot, GithubSnapshot, HealthScore, NewHealthScore, Trend,
    valid_score, SCORE_MAX, SCORE_NEUTRAL};

verus! {

/// Health score analyzer.
pub struct Analyzer;

/// A weighted point total clamped to the valid score range, in
/// thousandths of a point. The clamp is defensive: every blend of
/// valid inputs already lies in range.
pub open spec fn spec_clamp(x: int) -> u32 {
    if x < 0 {
        0
    } else if x > SCORE_MAX {
        SCORE_MAX
    } else {
        x as u32
    }
}

/// Development value from metric totals: sixty percent commit bucket,
/// forty percent contributor bucket.
pub open spec fn spec_development_value(commits: u64, contributors: u64) -> u32 {
    ((6 * spec_commit_bucket(commits) + 4 * spec_contributor_bucket(contributors)) * 100) as u32
}

/// Development score: the weighted buckets of the summed 30-day commit
/// and contributor totals, or neutral without repository snapshots.
pub open spec fn spec_development_score(g: Seq<GithubSnapshot>) -> u32 {
    if g.len() == 0 {
        SCORE_NEUTRAL
    } else {
        spec_development_value(spec_total_commits_30d(g), spec_total_contributors(g))
    }
}

/// Platform community value from metric totals: half star bucket, half
/// fork bucket.
pub open spec fn spec_platform_value(stars: u64, forks: u64) -> u32 {
    ((5 * spec_star_bucket(stars) + 5 * spec_fork_bucket(forks)) * 100) as u32
}

/// Platform component of the community score, or neutral without
/// repository snapshots.
pub open spec fn spec_platform_score(g: Seq<GithubSnapshot>) -> u32 {
    if g.len() == 0 {
        SCORE_NEUTRAL
    } else {
        spec_platform_value(spec_total_stars(g), spec_total_forks(g))
    }
}

/// Social value from metric totals: seventy percent subscriber bucket,
/// thirty percent post bucket.
pub open spec fn spec_social_value(subscribers: u64, posts: u64) -> u32 {
    ((7 * spec_subscriber_bucket(subscribers) + 3 * spec_post_bucket(posts)) * 100) as u32
}

/// Social component of the community score: the weighted buckets of the
/// summed subscriber and post totals of the recognized social sources,
/// or zero when no such source reported - zero marks the component as
/// absent, it never arises from present data.
pub open spec fn spec_social_score(c: Seq<CommunitySnapshot>) -> u32 {
    if !spec_has_reddit(c) {
        0
    } else {
        spec_social_value(spec_reddit_subscribers(c), spec_reddit_posts(c))
    }
}

/// Community score: with a social signal present, forty percent platform
/// and sixty percent social; without one, the platform component alone.
/// The fallback is asymmetric on purpose: a missing social presence is
/// not punished as a zero social score would be.
pub open spec fn spec_community_score(g: Seq<GithubSnapshot>, c: Seq<CommunitySnapshot>) -> u32 {
    if spec_has_reddit(c) {
        spec_clamp((4 * spec_platform_score(g) + 6 * spec_social_score(c)) / 10)
    } else {
        spec_clamp(spec_platform_score(g) as int)
    }
}

/// Combines a running maximum with one more optional timestamp.
pub open spec fn spec_max_opt(m: Option<i64>, x: Option<i64>) -> Option<i64> {
    match (m, x) {
        (None, x) => x,
        (Some(a), None) => Some(a),
        (Some(a), Some(b)) => Some(if b > a { b } else { a }),
    }
}

/// The most recent last-commit timestamp reported by any repository.
pub open spec fn spec_max_last_commit(g: Seq<GithubSnapshot>) -> Option<i64>
    decreases g.len(),
{
    if g.len() == 0 {
        None
    } else {
        spec_max_opt(spec_max_last_commit(g.drop_last()), g.last().last_commit_at)
    }
}

/// Commit-recency points: the recency bucket of the days since the most
/// recent commit, or neutral fifty points when no repository reports a
/// last-commit timestamp.
pub open spec fn spec_recency_points(g: Seq<GithubSnapshot>, now: int) -> u32 {
    match spec_max_last_commit(g) {
        None => 50,
        Some(t) => spec_recency_bucket(spec_days_between(now, t as int) as i64),
    }
}

/// Maintenance value: thirty percent each for the inverted issue and
/// pull-request buckets, forty percent for commit recency.
pub open spec fn spec_maintenance_value(issues: u64, prs: u64, recency: u32) -> u32 {
    ((3 * spec_issue_bucket(issues) + 3 * spec_pr_bucket(prs) + 4 * recency) * 100) as u32
}

/// Maintenance score, or neutral without repository snapshots.
pub open spec fn spec_maintenance_score(g: Seq<GithubSnapshot>, now: int) -> u32 {
    if g.len() == 0 {
        SCORE_NEUTRAL
    } else {
        spec_maintenance_value(spec_total_issues(g), spec_total_prs(g),
            spec_recency_points(g, now))
    }
}

/// Overall score: the fixed linear combination of forty percent
/// development, thirty percent community and thirty percent
/// maintenance, clamped to the valid range.
pub open spec fn spec_overall_score(development: u32, community: u32, maintenance: u32) -> u32 {
    spec_clamp((4 * development + 3 * community + 3 * maintenance) / 10)
}

/// Trend against the previous overall score: up above a gain of two
/// points, down below a loss of two points, else stable; stable
/// unconditionally without a previous record. Gains and losses of
/// exactly two points are stable.
pub open spec fn spec_trend(current: u32, previous: Option<u32>) -> Trend {
    match previous {
        None => Trend::Stable,
        Some(p) => if current as int > p as int + 2000 {
            Trend::Up
        } else if current as int + 2000 < p as int {
            Trend::Down
        } else {
            Trend::Stable
        },
    }
}

/// Every last-commit timestamp lies close enough to `now` for its age
/// in seconds to be representable.
pub open spec fn spec_commit_ages_in_range(g: Seq<GithubSnapshot>, now: int) -> bool {
    forall|i: int| 0 <= i < g.len()
        ==> (#[trigger] g[i].last_commit_at matches Some(t)
            ==> now - t <= i64::MAX as int && t as int - now <= i64::MAX as int)
}

/// Empty input sets yield sub-scores of exactly fifty points - never an
/// error and never zero - and an overall score of exactly fifty points.
pub proof fn lemma_empty_inputs_neutral(now: int)
    ensures
        spec_development_score(Seq::<GithubSnapshot>::empty()) == SCORE_NEUTRAL,
        spec_community_score(
            Seq::<GithubSnapshot>::empty(),
            Seq::<CommunitySnapshot>::empty(),
        ) == SCORE_NEUTRAL,
        spec_maintenance_score(Seq::<GithubSnapshot>::empty(), now) == SCORE_NEUTRAL,
        spec_overall_score(SCORE_NEUTRAL, SCORE_NEUTRAL, SCORE_NEUTRAL) == SCORE_NEUTRAL,
{
    assert(!spec_has_reddit(Seq::<CommunitySnapshot>::empty()));
}

/// Every sub-score lies in the valid zero-to-one-hundred point range,
/// whatever the snapshot sets hold.
pub proof fn lemma_sub_scores_in_range(
    g: Seq<GithubSnapshot>,
    c: Seq<CommunitySnapshot>,
    now: int,
)
    ensures
        valid_score(spec_development_score(g)),
        valid_score(spec_community_score(g, c)),
        valid_score(spec_maintenance_score(g, now)),
        valid_score(spec_social_score(c)),
{
}

/// The overall score is the fixed forty-thirty-thirty linear
/// combination of the three sub-scores; for valid sub-scores the
/// defensive clamp never engages and the result is valid.
pub proof fn lemma_overall_weighted_combination(development: u32, community: u32, maintenance: u32)
    requires
        valid_score(development),
        valid_score(community),
        valid_score(maintenance),
    ensures
        spec_overall_score(development, community, maintenance) == (4 * development + 3 * community
            + 3 * maintenance) / 10,
        valid_score(spec_overall_score(development, community, maintenance)),
{
}

/// The social component is absent (zero) exactly when no recognized
/// social source reported, and present data always scores at least
/// twenty points: a present component is never confused with an absent
/// one.
pub proof fn lemma_social_presence(c: Seq<CommunitySnapshot>)
    ensures
        spec_social_score(c) == 0 <==> !spec_has_reddit(c),
        spec_has_reddit(c) ==> spec_social_score(c) >= 20000,
{
}

/// The development value never decreases when either metric total
/// grows.
pub proof fn lemma_development_value_monotone(c1: u64, k1: u64, c2: u64, k2: u64)
    requires
        c1 <= c2,
        k1 <= k2,
    ensures
        spec_development_value(c1, k1) <= spec_development_value(c2, k2),
{
}

/// The platform community value never decreases when stars or forks
/// grow.
pub proof fn lemma_platform_value_monotone(s1: u64, f1: u64, s2: u64, f2: u64)
    requires
        s1 <= s2,
        f1 <= f2,
    ensures
        spec_platform_value(s1, f1) <= spec_platform_value(s2, f2),
{
}

/// The social value never decreases when subscribers or posts grow.
pub proof fn lemma_social_value_monotone(u1: u64, p1: u64, u2: u64, p2: u64)
    requires
        u1 <= u2,
        p1 <= p2,
    ensures
        spec_social_value(u1, p1) <= spec_social_value(u2, p2),
{
}

/// The maintenance value never increases when the open-issue or
/// open-pull-request backlog grows or the last commit ages: its buckets
/// are inverted.
pub proof fn lemma_maintenance_value_antitone(
    i1: u64,
    p1: u64,
    r1: u32,
    i2: u64,
    p2: u64,
    r2: u32,
)
    requires
        i1 <= i2,
        p1 <= p2,
        r2 <= r1 <= 100,
    ensures
        spec_maintenance_value(i2, p2, r2) <= spec_maintenance_value(i1, p1, r1),
{
}

/// Without a previous score record the trend is stable, never up or
/// down on a first computation.
pub proof fn lemma_trend_no_previous(current: u32)
    ensures
        spec_trend(current, None) == Trend::Stable,
{
}

/// The trend thresholds sit at exactly plus and minus two points, and
/// changes of exactly two points are stable.
pub proof fn lemma_trend_thresholds(current: u32, previous: u32)
    ensures
        (spec_trend(current, Some(previous)) == Trend::Up) <==> (current as int - previous as int
            > 2000),
        (spec_trend(current, Some(previous)) == Trend::Down) <==> (previous as int
            - current as int > 2000),
        (spec_trend(current, Some(previous)) == Trend::Stable) <==> (previous as int
            - current as int <= 2000 && current as int - previous as int <= 2000),
{
}

/// With a previous record the trend is a pure function of the
/// difference between the current and the previous overall score.
pub proof fn lemma_trend_difference_function(c1: u32, p1: u32, c2: u32, p2: u32)
    requires
        c1 as int - p1 as int == c2 as int - p2 as int,
    ensures
        spec_trend(c1, Some(p1)) == spec_trend(c2, Some(p2)),
{
}

/// Removing one repository removes exactly its contribution to the
/// most-recent-commit maximum.
proof fn lemma_max_last_commit_remove(g: Seq<GithubSnapshot>, i: int)
    requires
        0 <= i < g.len(),
    ensures
        spec_max_last_commit(g) == spec_max_opt(
            spec_max_last_commit(g.remove(i)),
            g[i].last_commit_at,
        ),
    decreases g.len(),
{
    if i == g.len() - 1 {
        assert(g.remove(i) =~= g.drop_last());
    } else {
        let t = g.drop_last();
        lemma_max_last_commit_remove(t, i);
        assert(g.remove(i).drop_last() =~= t.remove(i));
        assert(g.remove(i).last() == g.last());
    }
}

/// The most-recent-commit maximum is independent of the order of the
/// snapshot list.
proof fn lemma_max_last_commit_permutation(a: Seq<GithubSnapshot>, b: Seq<GithubSnapshot>)
    requires
        a.to_multiset() == b.to_multiset(),
    ensures
        spec_max_last_commit(a) == spec_max_last_commit(b),
    decreases a.len(),
{
    broadcast use vstd::seq_lib::group_to_multiset_ensures;

    if a.len() == 0 {
        assert(b.len() == b.to_multiset().len());
    } else {
        let x = a.last();
        let last = a.len() - 1;
        assert(a[last] == x);
        assert(a.contains(x));
        assert(a.to_multiset().count(x) > 0);
        assert(b.contains(x));
        let i = choose|i: int| 0 <= i < b.len() && b[i] == x;
        let a2 = a.drop_last();
        let b2 = b.remove(i);
        assert(a.remove(last) =~= a2);
        assert(a2.to_multiset() == a.to_multiset().remove(x));
        assert(b2.to_multiset() == b.to_multiset().remove(x));
        lemma_max_last_commit_permutation(a2, b2);
        lemma_max_last_commit_remove(b, i);
    }
}

/// No sub-score depends on the order of the snapshot lists: lists that
/// hold the same snapshots, in whatever order, score identically.
pub proof fn lemma_scores_order_independent(
    g1: Seq<GithubSnapshot>,
    g2: Seq<GithubSnapshot>,
    c1: Seq<CommunitySnapshot>,
    c2: Seq<CommunitySnapshot>,
    now: int,
)
    requires
        g1.to_multiset() == g2.to_multiset(),
        c1.to_multiset() == c2.to_multiset(),
    ensures
        spec_development_score(g1) == spec_development_score(g2),
        spec_community_score(g1, c1) == spec_community_score(g2, c2),
        spec_maintenance_score(g1, now) == spec_maintenance_score(g2, now),
{
    crate::metrics::lemma_github_totals_permutation(g1, g2);
    crate::metrics::lemma_community_totals_permutation(c1, c2);
    crate::metrics::lemma_has_reddit_permutation(c1, c2);
    lemma_max_last_commit_permutation(g1, g2);
}

/// The reported maximum is one of the reported timestamps.
proof fn lemma_max_last_commit_in(g: Seq<GithubSnapshot>)
    ensures
        spec_max_last_commit(g) matches Some(t)
            ==> exists|i: int| 0 <= i < g.len() && g[i].last_commit_at == Some(t),
    decreases g.len(),
{
    if g.len() > 0 {
        lemma_max_last_commit_in(g.drop_last());
        match spec_max_last_commit(g) {
            Some(t) => {
                let prev = spec_max_last_commit(g.drop_last());
                if g.last().last_commit_at == Some(t) {
                    assert(g[g.len() - 1].last_commit_at == Some(t));
                } else {
                    assert(prev == Some(t));
                    let i = choose|i: int|
                        0 <= i < g.drop_last().len() && g.drop_last()[i].last_commit_at == Some(t);
                    assert(g[i].last_commit_at == Some(t));
                }
            },
            None => {},
        }
    }
}

impl Analyzer {
    /// The most recent last-commit timestamp across all repository
    /// snapshots, if any reports one.
    fn max_last_commit(github: &Vec<GithubSnapshot>) -> (r: Option<i64>)
        ensures
            r == spec_max_last_commit(github@),
    {
        let ghost g = github@;
        let mut cur: Option<i64> = None;
        let mut i: usize = 0;
        while i < github.len()
            invariant
                0 <= i <= g.len(),
                g == github@,
                cur == spec_max_last_commit(g.take(i as int)),
            decreases g.len() - i,
        {
            proof {
                assert(g.take(i + 1).drop_last() =~= g.take(i as int));
            }
            if let Some(t) = github[i].last_commit_at {
                cur = match cur {
                    None => Some(t),
                    Some(m) => Some(if t > m { t } else { m }),
                };
            }
            i = i + 1;
        }
        proof {
            assert(g.take(g.len() as int) =~= g);
        }
        cur
    }

    /// Development activity score. Neutral when no repository snapshots
    /// are available.
    pub fn calculate_development_score(github: &Vec<GithubSnapshot>) -> (s: u32)
        ensures
            s == spec_development_score(github@),
            valid_score(s),
    {
        if github.len() == 0 {
            return SCORE_NEUTRAL;
        }
        let (_stars, _forks, contributors, commits, _issues, _prs) = github_totals(github);
        let commit_score = commit_bucket(commits);
        let contributor_score = contributor_bucket(contributors);
        let raw = (6 * commit_score + 4 * contributor_score) * 100;
        if raw > SCORE_MAX {
            SCORE_MAX
        } else {
            raw
        }
    }

    /// Social engagement score over the recognized social sources. Zero
    /// when no such source reported: the component is absent, and the
    /// community blend falls back to the platform component alone.
    pub fn calculate_reddit_score(community: &Vec<CommunitySnapshot>) -> (s: u32)
        ensures
            s == spec_social_score(community@),
            s == 0 <==> !spec_has_reddit(community@),
            valid_score(s),
    {
        let (subscribers, posts, found) = reddit_totals(community);
        if !found {
            return 0;
        }
        let subscriber_score = subscriber_bucket(subscribers);
        let activity_score = post_bucket(posts);
        (7 * subscriber_score + 3 * activity_score) * 100
    }

    /// Community engagement score, combining platform metrics (stars,
    /// forks) with social community data.
    pub fn calculate_community_score(
        github: &Vec<GithubSnapshot>,
        community: &Vec<CommunitySnapshot>,
    ) -> (s: u32)
        ensures
            s == spec_community_score(github@, community@),
            valid_score(s),
    {
        let github_score: u32 = if github.len() == 0 {
            SCORE_NEUTRAL
        } else {
            let (stars, forks, _contributors, _commits, _issues, _prs) = github_totals(github);
            let star_score = star_bucket(stars);
            let fork_score = fork_bucket(forks);
            (5 * star_score + 5 * fork_score) * 100
        };
        proof {
            assert(github_score == spec_platform_score(github@));
        }
        let reddit_score = Self::calculate_reddit_score(community);
        if reddit_score > 0 {
            let blended = (4 * github_score + 6 * reddit_score) / 10;
            if blended > SCORE_MAX {
                SCORE_MAX
            } else {
                blended
            }
        } else {
            if github_score > SCORE_MAX {
                SCORE_MAX
            } else {
                github_score
            }
        }
    }

    /// Maintenance health score from the open-issue and open-pull
    /// request backlog and commit recency. Neutral when no repository
    /// snapshots are available.
    pub fn calculate_maintenance_score(github: &Vec<GithubSnapshot>, now: i64) -> (s: u32)
        requires
            spec_commit_ages_in_range(github@, now as int),
        ensures
            s == spec_maintenance_score(github@, now as int),
            valid_score(s),
    {
        if github.len() == 0 {
            return SCORE_NEUTRAL;
        }
        let (_stars, _forks, _contributors, _commits, issues, prs) = github_totals(github);
        let issue_score = issue_bucket(issues);
        let pr_score = pr_bucket(prs);
        let recency_score: u32 = match Self::max_last_commit(github) {
            Some(t) => {
                proof {
                    lemma_max_last_commit_in(github@);
                }
                recency_bucket(days_between(now, t))
            },
            None => 50,
        };
        let raw = (3 * issue_score + 3 * pr_score + 4 * recency_score) * 100;
        if raw > SCORE_MAX {
            SCORE_MAX
        } else {
            raw
        }
    }

    /// Trend of the current overall score against the previous score
    /// record, stable when none exists.
    pub fn determine_trend(current: u32, previous: Option<&HealthScore>) -> (t: Trend)
        ensures
            t == spec_trend(current, match previous {
                Some(p) => Some(p.overall_score),
                None => None,
            }),
            t != Trend::Unknown,
    {
        match previous {
            Some(prev) => {
                let diff: i64 = current as i64 - prev.overall_score as i64;
                if diff > 2000 {
                    Trend::Up
                } else if diff < -2000 {
                    Trend::Down
                } else {
                    Trend::Stable
                }
            },
            None => Trend::Stable,
        }
    }

    /// Calculates the health score record for a distribution from its
    /// latest snapshot sets and its previous score record. Every input
    /// shape, including fully empty snapshot sets, produces a valid
    /// record: missing data falls back to neutral sub-scores.
    pub fn calculate_health_score(
        github: &Vec<GithubSnapshot>,
        community: &Vec<CommunitySnapshot>,
        previous: Option<&HealthScore>,
        distro_id: i64,
        now: i64,
    ) -> (r: NewHealthScore)
        requires
            spec_commit_ages_in_range(github@, now as int),
        ensures
            r.distro_id == distro_id,
            r.development_score == spec_development_score(github@),
            r.community_score == spec_community_score(github@, community@),
            r.maintenance_score == spec_maintenance_score(github@, now as int),
            r.overall_score == spec_overall_score(
                r.development_score,
                r.community_score,
                r.maintenance_score,
            ),
            r.trend == spec_trend(r.overall_score, match previous {
                Some(p) => Some(p.overall_score),
                None => None,
            }),
            r.wf(),
    {
        let development_score = Self::calculate_development_score(github);
        let community_score = Self::calculate_community_score(github, community);
        let maintenance_score = Self::calculate_maintenance_score(github, now);

        let weighted = 4 * development_score + 3 * community_score + 3 * maintenance_score;
        let overall_score = {
            let blended = weighted / 10;
            if blended > SCORE_MAX {
                SCORE_MAX
            } else {
                blended
            }
        };

        let trend = Self::determine_trend(overall_score, previous);

        NewHealthScore {
            distro_id,
            overall_score,
            development_score,
            community_score,
            maintenance_score,
            trend,
        }
    }
}

} // verus!
