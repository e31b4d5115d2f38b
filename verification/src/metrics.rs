//! Snapshot aggregation: reduces a collection of raw per-repository and
//! per-source snapshots for one distribution into a single flattened
//! metrics summary.
//!
//! Absent data produces zero totals and absent optional fields, never an
//! error, and every summed total is independent of snapshot order.

use vstd::prelude::*;
use vstd::string::StrSliceExecFns;
use crate::models::{CommunitySnapshot, GithubSnapshot, ReleaseSnapshot};
use crate::sums::{clip_u64, lemma_clip_add, lemma_sum_by_permutation, lemma_sum_by_take_step,
    saturating_add_u64, sum_by};

verus! {

/// Extracts a repository's star count.
pub open spec fn stars_of() -> spec_fn(GithubSnapshot) -> nat {
    |s: GithubSnapshot| s.stars as nat
}

/// Extracts a repository's fork count.
pub open spec fn forks_of() -> spec_fn(GithubSnapshot) -> nat {
    |s: GithubSnapshot| s.forks as nat
}

/// Extracts a repository's 30-day distinct-contributor count.
pub open spec fn contributors_of() -> spec_fn(GithubSnapshot) -> nat {
    |s: GithubSnapshot| s.contributors_30d as nat
}

/// Extracts a repository's 30-day commit count.
pub open spec fn commits_30d_of() -> spec_fn(GithubSnapshot) -> nat {
    |s: GithubSnapshot| s.commits_30d as nat
}

/// Extracts a repository's open-issue count.
pub open spec fn issues_of() -> spec_fn(GithubSnapshot) -> nat {
    |s: GithubSnapshot| s.open_issues as nat
}

/// Extracts a repository's open-pull-request count.
pub open spec fn prs_of() -> spec_fn(GithubSnapshot) -> nat {
    |s: GithubSnapshot| s.open_prs as nat
}

/// Total stars across all repositories, saturating at `u64::MAX`.
pub open spec fn spec_total_stars(s: Seq<GithubSnapshot>) -> u64 {
    clip_u64(sum_by(s, stars_of()))
}

/// Total forks across all repositories, saturating at `u64::MAX`.
pub open spec fn spec_total_forks(s: Seq<GithubSnapshot>) -> u64 {
    clip_u64(sum_by(s, forks_of()))
}

/// Total 30-day contributors across all repositories, saturating.
pub open spec fn spec_total_contributors(s: Seq<GithubSnapshot>) -> u64 {
    clip_u64(sum_by(s, contributors_of()))
}

/// Total 30-day commits across all repositories, saturating.
pub open spec fn spec_total_commits_30d(s: Seq<GithubSnapshot>) -> u64 {
    clip_u64(sum_by(s, commits_30d_of()))
}

/// Total open issues across all repositories, saturating.
pub open spec fn spec_total_issues(s: Seq<GithubSnapshot>) -> u64 {
    clip_u64(sum_by(s, issues_of()))
}

/// Total open pull requests across all repositories, saturating.
pub open spec fn spec_total_prs(s: Seq<GithubSnapshot>) -> u64 {
    clip_u64(sum_by(s, prs_of()))
}

/// Sums stars, forks, contributors, 30-day commits, open issues and open
/// pull requests across all repository snapshots, in that order,
/// saturating at `u64::MAX`.
pub fn github_totals(snapshots: &Vec<GithubSnapshot>) -> (t: (u64, u64, u64, u64, u64, u64))
    ensures
        t.0 == spec_total_stars(snapshots@),
        t.1 == spec_total_forks(snapshots@),
        t.2 == spec_total_contributors(snapshots@),
        t.3 == spec_total_commits_30d(snapshots@),
        t.4 == spec_total_issues(snapshots@),
        t.5 == spec_total_prs(snapshots@),
{
    let mut stars: u64 = 0;
    let mut forks: u64 = 0;
    let mut contributors: u64 = 0;
    let mut commits: u64 = 0;
    let mut issues: u64 = 0;
    let mut prs: u64 = 0;
    let mut i: usize = 0;
    while i < snapshots.len()
        invariant
            0 <= i <= snapshots@.len(),
            stars == clip_u64(sum_by(snapshots@.take(i as int), stars_of())),
            forks == clip_u64(sum_by(snapshots@.take(i as int), forks_of())),
            contributors == clip_u64(sum_by(snapshots@.take(i as int), contributors_of())),
            commits == clip_u64(sum_by(snapshots@.take(i as int), commits_30d_of())),
            issues == clip_u64(sum_by(snapshots@.take(i as int), issues_of())),
            prs == clip_u64(sum_by(snapshots@.take(i as int), prs_of())),
        decreases snapshots@.len() - i,
    {
        let snap = &snapshots[i];
        proof {
            lemma_sum_by_take_step(snapshots@, i as int, stars_of());
            lemma_sum_by_take_step(snapshots@, i as int, forks_of());
            lemma_sum_by_take_step(snapshots@, i as int, contributors_of());
            lemma_sum_by_take_step(snapshots@, i as int, commits_30d_of());
            lemma_sum_by_take_step(snapshots@, i as int, issues_of());
            lemma_sum_by_take_step(snapshots@, i as int, prs_of());
            lemma_clip_add(sum_by(snapshots@.take(i as int), stars_of()), snap.stars);
            lemma_clip_add(sum_by(snapshots@.take(i as int), forks_of()), snap.forks);
            lemma_clip_add(sum_by(snapshots@.take(i as int), contributors_of()),
                snap.contributors_30d);
            lemma_clip_add(sum_by(snapshots@.take(i as int), commits_30d_of()), snap.commits_30d);
            lemma_clip_add(sum_by(snapshots@.take(i as int), issues_of()), snap.open_issues);
            lemma_clip_add(sum_by(snapshots@.take(i as int), prs_of()), snap.open_prs);
        }
        stars = saturating_add_u64(stars, snap.stars);
        forks = saturating_add_u64(forks, snap.forks);
        contributors = saturating_add_u64(contributors, snap.contributors_30d);
        commits = saturating_add_u64(commits, snap.commits_30d);
        issues = saturating_add_u64(issues, snap.open_issues);
        prs = saturating_add_u64(prs, snap.open_prs);
        i = i + 1;
    }
    proof {
        assert(snapshots@.take(snapshots@.len() as int) =~= snapshots@);
    }
    (stars, forks, contributors, commits, issues, prs)
}

/// Every summed repository total is independent of the order of the
/// snapshot list: two lists with the same multiset of snapshots have
/// identical totals, and so the same aggregated summary.
pub proof fn lemma_github_totals_permutation(a: Seq<GithubSnapshot>, b: Seq<GithubSnapshot>)
    requires
        a.to_multiset() == b.to_multiset(),
    ensures
        a.len() == b.len(),
        spec_total_stars(a) == spec_total_stars(b),
        spec_total_forks(a) == spec_total_forks(b),
        spec_total_contributors(a) == spec_total_contributors(b),
        spec_total_commits_30d(a) == spec_total_commits_30d(b),
        spec_total_issues(a) == spec_total_issues(b),
        spec_total_prs(a) == spec_total_prs(b),
        spec_from_github(a) == spec_from_github(b),
{
    broadcast use vstd::seq_lib::group_to_multiset_ensures;

    assert(a.len() == a.to_multiset().len());
    assert(b.len() == b.to_multiset().len());
    lemma_sum_by_permutation(a, b, stars_of());
    lemma_sum_by_permutation(a, b, forks_of());
    lemma_sum_by_permutation(a, b, contributors_of());
    lemma_sum_by_permutation(a, b, commits_30d_of());
    lemma_sum_by_permutation(a, b, issues_of());
    lemma_sum_by_permutation(a, b, prs_of());
}

/// Whether a community source name follows the recognized social
/// platform convention, e.g. `reddit:r/archlinux`.
pub open spec fn is_reddit_source(s: Seq<char>) -> bool {
    "reddit:"@.is_prefix_of(s)
}

/// Whether a community source name carries a channel in the
/// `reddit:r/<channel>` form, from which a display name can be taken.
pub open spec fn is_reddit_channel(s: Seq<char>) -> bool {
    "reddit:r/"@.is_prefix_of(s)
}

/// The channel display name of a `reddit:r/<channel>` source.
pub open spec fn strip_channel(s: Seq<char>) -> Seq<char> {
    s.skip("reddit:r/"@.len() as int)
}

/// Whether `p` is a prefix of `s`.
pub fn str_has_prefix(s: &str, p: &str) -> (b: bool)
    ensures
        b == p@.is_prefix_of(s@),
{
    let sl = s.unicode_len();
    let pl = p.unicode_len();
    if pl > sl {
        return false;
    }
    let mut i: usize = 0;
    while i < pl
        invariant
            0 <= i <= pl,
            pl == p@.len(),
            sl == s@.len(),
            pl <= sl,
            forall|k: int| 0 <= k < i ==> p@[k] == s@[k],
        decreases pl - i,
    {
        if s.get_char(i) != p.get_char(i) {
            proof {
                assert(p@[i as int] != s@.subrange(0, pl as int)[i as int]);
            }
            return false;
        }
        i = i + 1;
    }
    proof {
        assert(p@ =~= s@.subrange(0, pl as int));
    }
    true
}

/// A `reddit:r/` channel source is in particular a recognized social
/// platform source.
pub proof fn lemma_channel_implies_source(s: Seq<char>)
    requires
        is_reddit_channel(s),
    ensures
        is_reddit_source(s),
{
    reveal_strlit("reddit:");
    reveal_strlit("reddit:r/");
    assert("reddit:"@ =~= s.subrange(0, 7));
}

/// Extracts the reported active-user count of a recognized social
/// source; other sources and absent fields contribute nothing.
pub open spec fn reddit_users_of() -> spec_fn(CommunitySnapshot) -> nat {
    |c: CommunitySnapshot|
        if is_reddit_source(c.source@) {
            match c.active_users_30d {
                Some(u) => u as nat,
                None => 0,
            }
        } else {
            0
        }
}

/// Extracts the reported 30-day post count of a recognized social
/// source; other sources and absent fields contribute nothing.
pub open spec fn reddit_posts_of() -> spec_fn(CommunitySnapshot) -> nat {
    |c: CommunitySnapshot|
        if is_reddit_source(c.source@) {
            match c.posts_30d {
                Some(p) => p as nat,
                None => 0,
            }
        } else {
            0
        }
}

/// Summed active users across all recognized social sources, saturating.
pub open spec fn spec_reddit_subscribers(s: Seq<CommunitySnapshot>) -> u64 {
    clip_u64(sum_by(s, reddit_users_of()))
}

/// Summed 30-day posts across all recognized social sources, saturating.
pub open spec fn spec_reddit_posts(s: Seq<CommunitySnapshot>) -> u64 {
    clip_u64(sum_by(s, reddit_posts_of()))
}

/// Whether any snapshot comes from a recognized social source.
pub open spec fn spec_has_reddit(s: Seq<CommunitySnapshot>) -> bool {
    exists|i: int| 0 <= i < s.len() && is_reddit_source(s[i].source@)
}

/// The display channel name: taken from the first snapshot whose source
/// has the `reddit:r/<channel>` form, if any.
pub open spec fn spec_subreddit(s: Seq<CommunitySnapshot>) -> Option<Seq<char>>
    decreases s.len(),
{
    if s.len() == 0 {
        None
    } else if is_reddit_channel(s.first().source@) {
        Some(strip_channel(s.first().source@))
    } else {
        spec_subreddit(s.drop_first())
    }
}

/// Appending a snapshot changes the extracted channel name only when
/// none was found before.
pub proof fn lemma_spec_subreddit_push(s: Seq<CommunitySnapshot>, x: CommunitySnapshot)
    ensures
        spec_subreddit(s.push(x)) == match spec_subreddit(s) {
            Some(v) => Some(v),
            None => if is_reddit_channel(x.source@) {
                Some(strip_channel(x.source@))
            } else {
                None
            },
        },
    decreases s.len(),
{
    let t = s.push(x);
    if s.len() == 0 {
        assert(t.first() == x);
        assert(t.drop_first() =~= Seq::<CommunitySnapshot>::empty());
        assert(spec_subreddit(t.drop_first()) == None::<Seq<char>>);
        if is_reddit_channel(x.source@) {
            assert(spec_subreddit(t) == Some(strip_channel(x.source@)));
        } else {
            assert(spec_subreddit(t) == None::<Seq<char>>);
        }
    } else {
        assert(t.first() == s.first());
        assert(t.drop_first() =~= s.drop_first().push(x));
        lemma_spec_subreddit_push(s.drop_first(), x);
        if is_reddit_channel(s.first().source@) {
            assert(spec_subreddit(t) == Some(strip_channel(s.first().source@)));
            assert(spec_subreddit(s) == Some(strip_channel(s.first().source@)));
        } else {
            assert(spec_subreddit(t) == spec_subreddit(t.drop_first()));
            assert(spec_subreddit(s) == spec_subreddit(s.drop_first()));
        }
    }
}

/// Sums active users and 30-day posts across all recognized social
/// sources, in that order, saturating at `u64::MAX`, and reports whether
/// any recognized social source was present at all.
pub fn reddit_totals(community: &Vec<CommunitySnapshot>) -> (t: (u64, u64, bool))
    ensures
        t.0 == spec_reddit_subscribers(community@),
        t.1 == spec_reddit_posts(community@),
        t.2 == spec_has_reddit(community@),
{
    let mut subscribers: u64 = 0;
    let mut posts: u64 = 0;
    let mut found: bool = false;
    let mut i: usize = 0;
    while i < community.len()
        invariant
            0 <= i <= community@.len(),
            subscribers == clip_u64(sum_by(community@.take(i as int), reddit_users_of())),
            posts == clip_u64(sum_by(community@.take(i as int), reddit_posts_of())),
            found == exists|k: int|
                0 <= k < i && is_reddit_source(community@[k].source@),
        decreases community@.len() - i,
    {
        let snap = &community[i];
        proof {
            lemma_sum_by_take_step(community@, i as int, reddit_users_of());
            lemma_sum_by_take_step(community@, i as int, reddit_posts_of());
            lemma_clip_add(sum_by(community@.take(i as int), reddit_users_of()),
                reddit_users_of()(community@[i as int]) as u64);
            lemma_clip_add(sum_by(community@.take(i as int), reddit_posts_of()),
                reddit_posts_of()(community@[i as int]) as u64);
        }
        if str_has_prefix(snap.source.as_str(), "reddit:") {
            found = true;
            if let Some(u) = snap.active_users_30d {
                subscribers = saturating_add_u64(subscribers, u);
            }
            if let Some(p) = snap.posts_30d {
                posts = saturating_add_u64(posts, p);
            }
            proof {
                assert(is_reddit_source(community@[i as int].source@));
            }
        }
        i = i + 1;
    }
    proof {
        assert(community@.take(community@.len() as int) =~= community@);
    }
    (subscribers, posts, found)
}

/// Counts a release as recent when it is a full (non-prerelease)
/// release published within the trailing 30 days before `now`.
pub open spec fn recent_release_of(now: int) -> spec_fn(ReleaseSnapshot) -> nat {
    |r: ReleaseSnapshot|
        if !r.is_prerelease && (match r.published_at {
            Some(p) => p > now - 2592000,
            None => false,
        }) {
            1nat
        } else {
            0nat
        }
}

/// Count of full releases published within the trailing 30 days.
pub open spec fn spec_releases_30d(s: Seq<ReleaseSnapshot>, now: int) -> u64 {
    clip_u64(sum_by(s, recent_release_of(now)))
}

/// Order on optional publish timestamps: an absent timestamp sorts
/// before every present one.
pub open spec fn spec_opt_time_le(a: Option<i64>, b: Option<i64>) -> bool {
    match (a, b) {
        (None, _) => true,
        (Some(_), None) => false,
        (Some(x), Some(y)) => x <= y,
    }
}

/// Compares optional publish timestamps, an absent one first.
pub fn opt_time_le(a: &Option<i64>, b: &Option<i64>) -> (r: bool)
    ensures
        r == spec_opt_time_le(*a, *b),
{
    match (a, b) {
        (None, _) => true,
        (Some(_), None) => false,
        (Some(x), Some(y)) => *x <= *y,
    }
}

/// The most recently published full release, by publish timestamp with
/// an absent timestamp sorting first; of equally recent releases the
/// last in the list wins.
pub open spec fn spec_latest_release(s: Seq<ReleaseSnapshot>) -> Option<ReleaseSnapshot>
    decreases s.len(),
{
    if s.len() == 0 {
        None
    } else {
        let prev = spec_latest_release(s.drop_last());
        let x = s.last();
        if x.is_prerelease {
            prev
        } else {
            match prev {
                None => Some(x),
                Some(p) => if spec_opt_time_le(p.published_at, x.published_at) {
                    Some(x)
                } else {
                    Some(p)
                },
            }
        }
    }
}

/// Whole days between two timestamps in seconds, truncated toward zero.
pub open spec fn spec_days_between(now: int, p: int) -> int {
    if now >= p {
        (now - p) / 86400
    } else {
        0 - ((p - now) / 86400)
    }
}

/// Whole days from the publish timestamp `p` to `now`.
pub fn days_between(now: i64, p: i64) -> (d: i64)
    requires
        now as int - p as int <= i64::MAX as int,
        p as int - now as int <= i64::MAX as int,
    ensures
        d == spec_days_between(now as int, p as int),
{
    if now >= p {
        (now - p) / 86400
    } else {
        -((p - now) / 86400)
    }
}

/// Summed social totals are independent of the order of the community
/// snapshot list.
pub proof fn lemma_community_totals_permutation(
    a: Seq<CommunitySnapshot>,
    b: Seq<CommunitySnapshot>,
)
    requires
        a.to_multiset() == b.to_multiset(),
    ensures
        spec_reddit_subscribers(a) == spec_reddit_subscribers(b),
        spec_reddit_posts(a) == spec_reddit_posts(b),
{
    lemma_sum_by_permutation(a, b, reddit_users_of());
    lemma_sum_by_permutation(a, b, reddit_posts_of());
}

/// Whether a recognized social source is present is independent of the
/// order of the community snapshot list.
pub proof fn lemma_has_reddit_permutation(a: Seq<CommunitySnapshot>, b: Seq<CommunitySnapshot>)
    requires
        a.to_multiset() == b.to_multiset(),
    ensures
        spec_has_reddit(a) == spec_has_reddit(b),
{
    broadcast use vstd::seq_lib::group_to_multiset_ensures;

    if spec_has_reddit(a) {
        let i = choose|i: int| 0 <= i < a.len() && is_reddit_source(a[i].source@);
        assert(a.contains(a[i]));
        assert(a.to_multiset().count(a[i]) > 0);
        assert(b.to_multiset().count(a[i]) > 0);
        assert(b.contains(a[i]));
        let j = choose|j: int| 0 <= j < b.len() && b[j] == a[i];
        assert(is_reddit_source(b[j].source@));
    }
    if spec_has_reddit(b) {
        let i = choose|i: int| 0 <= i < b.len() && is_reddit_source(b[i].source@);
        assert(b.contains(b[i]));
        assert(b.to_multiset().count(b[i]) > 0);
        assert(a.to_multiset().count(b[i]) > 0);
        assert(a.contains(b[i]));
        let j = choose|j: int| 0 <= j < a.len() && a[j] == b[i];
        assert(is_reddit_source(a[j].source@));
    }
}

/// The count of recent full releases is independent of the order of the
/// release snapshot list.
pub proof fn lemma_release_count_permutation(
    a: Seq<ReleaseSnapshot>,
    b: Seq<ReleaseSnapshot>,
    now: int,
)
    requires
        a.to_multiset() == b.to_multiset(),
    ensures
        spec_releases_30d(a, now) == spec_releases_30d(b, now),
{
    lemma_sum_by_permutation(a, b, recent_release_of(now));
}

/// Flattened metrics summary for one distribution: sums across all its
/// repositories, release recency, and social community totals.
#[derive(Clone, Debug)]
pub struct RawMetrics {
    pub repos_tracked: u64,
    pub total_stars: u64,
    pub total_forks: u64,
    pub total_contributors: u64,
    pub commits_30d: u64,
    pub open_issues: u64,
    pub open_prs: u64,
    pub total_releases: u64,
    pub releases_30d: u64,
    pub latest_release: Option<String>,
    pub days_since_release: Option<i64>,
    pub reddit_subscribers: u64,
    pub reddit_posts_30d: u64,
    pub subreddit: Option<String>,
}

/// Mathematical model of a metrics summary, with strings as character
/// sequences.
pub struct RawMetricsView {
    pub repos_tracked: u64,
    pub total_stars: u64,
    pub total_forks: u64,
    pub total_contributors: u64,
    pub commits_30d: u64,
    pub open_issues: u64,
    pub open_prs: u64,
    pub total_releases: u64,
    pub releases_30d: u64,
    pub latest_release: Option<Seq<char>>,
    pub days_since_release: Option<i64>,
    pub reddit_subscribers: u64,
    pub reddit_posts_30d: u64,
    pub subreddit: Option<Seq<char>>,
}

impl View for RawMetrics {
    type V = RawMetricsView;

    open spec fn view(&self) -> RawMetricsView {
        RawMetricsView {
            repos_tracked: self.repos_tracked,
            total_stars: self.total_stars,
            total_forks: self.total_forks,
            total_contributors: self.total_contributors,
            commits_30d: self.commits_30d,
            open_issues: self.open_issues,
            open_prs: self.open_prs,
            total_releases: self.total_releases,
            releases_30d: self.releases_30d,
            latest_release: self.latest_release.deep_view(),
            days_since_release: self.days_since_release,
            reddit_subscribers: self.reddit_subscribers,
            reddit_posts_30d: self.reddit_posts_30d,
            subreddit: self.subreddit.deep_view(),
        }
    }
}

impl DeepView for RawMetrics {
    type V = RawMetricsView;

    open spec fn deep_view(&self) -> RawMetricsView {
        self.view()
    }
}

/// The all-absent summary: zero totals, no releases, no social data.
pub open spec fn spec_metrics_zero() -> RawMetricsView {
    RawMetricsView {
        repos_tracked: 0,
        total_stars: 0,
        total_forks: 0,
        total_contributors: 0,
        commits_30d: 0,
        open_issues: 0,
        open_prs: 0,
        total_releases: 0,
        releases_30d: 0,
        latest_release: None,
        days_since_release: None,
        reddit_subscribers: 0,
        reddit_posts_30d: 0,
        subreddit: None,
    }
}

impl Default for RawMetrics {
    /// The summary of no data at all.
    fn default() -> (m: Self)
        ensures
            m@ == spec_metrics_zero(),
    {
        RawMetrics {
            repos_tracked: 0,
            total_stars: 0,
            total_forks: 0,
            total_contributors: 0,
            commits_30d: 0,
            open_issues: 0,
            open_prs: 0,
            total_releases: 0,
            releases_30d: 0,
            latest_release: None,
            days_since_release: None,
            reddit_subscribers: 0,
            reddit_posts_30d: 0,
            subreddit: None,
        }
    }
}

/// The summary of a repository snapshot set alone: summed repository
/// totals, with release and community fields still absent.
pub open spec fn spec_from_github(s: Seq<GithubSnapshot>) -> RawMetricsView {
    RawMetricsView {
        repos_tracked: s.len() as u64,
        total_stars: spec_total_stars(s),
        total_forks: spec_total_forks(s),
        total_contributors: spec_total_contributors(s),
        commits_30d: spec_total_commits_30d(s),
        open_issues: spec_total_issues(s),
        open_prs: spec_total_prs(s),
        ..spec_metrics_zero()
    }
}

impl RawMetrics {
    /// Aggregates metrics from the latest repository snapshots: one
    /// summed total per metric across all repositories.
    pub fn from_github_snapshots(snapshots: &Vec<GithubSnapshot>) -> (m: Self)
        ensures
            m@ == spec_from_github(snapshots@),
    {
        let (stars, forks, contributors, commits, issues, prs) = github_totals(snapshots);
        RawMetrics {
            repos_tracked: snapshots.len() as u64,
            total_stars: stars,
            total_forks: forks,
            total_contributors: contributors,
            commits_30d: commits,
            open_issues: issues,
            open_prs: prs,
            total_releases: 0,
            releases_30d: 0,
            latest_release: None,
            days_since_release: None,
            reddit_subscribers: 0,
            reddit_posts_30d: 0,
            subreddit: None,
        }
    }

    /// An owned copy of this summary, equal to it in the model.
    pub fn duplicate(&self) -> (m: Self)
        ensures
            m@ == self@,
    {
        RawMetrics {
            repos_tracked: self.repos_tracked,
            total_stars: self.total_stars,
            total_forks: self.total_forks,
            total_contributors: self.total_contributors,
            commits_30d: self.commits_30d,
            open_issues: self.open_issues,
            open_prs: self.open_prs,
            total_releases: self.total_releases,
            releases_30d: self.releases_30d,
            latest_release: match &self.latest_release {
                Some(s) => Some(s.clone()),
                None => None,
            },
            days_since_release: self.days_since_release,
            reddit_subscribers: self.reddit_subscribers,
            reddit_posts_30d: self.reddit_posts_30d,
            subreddit: match &self.subreddit {
                Some(s) => Some(s.clone()),
                None => None,
            },
        }
    }

    /// Adds social community totals: summed active users and posts over
    /// all recognized social sources, and the first channel name found,
    /// leaving every other field as it was.
    pub fn with_community(self, community: &Vec<CommunitySnapshot>) -> (m: Self)
        ensures
            m@ == (RawMetricsView {
                reddit_subscribers: clip_u64(
                    self.reddit_subscribers as nat + sum_by(community@, reddit_users_of()),
                ),
                reddit_posts_30d: clip_u64(
                    self.reddit_posts_30d as nat + sum_by(community@, reddit_posts_of()),
                ),
                subreddit: match self@.subreddit {
                    Some(v) => Some(v),
                    None => spec_subreddit(community@),
                },
                ..self@
            }),
    {
        let ghost m0 = self@;
        let ghost c = community@;
        let mut out = self;
        let mut i: usize = 0;
        while i < community.len()
            invariant
                0 <= i <= c.len(),
                c == community@,
                out@ == (RawMetricsView {
                    reddit_subscribers: clip_u64(
                        m0.reddit_subscribers as nat + sum_by(c.take(i as int), reddit_users_of()),
                    ),
                    reddit_posts_30d: clip_u64(
                        m0.reddit_posts_30d as nat + sum_by(c.take(i as int), reddit_posts_of()),
                    ),
                    subreddit: match m0.subreddit {
                        Some(v) => Some(v),
                        None => spec_subreddit(c.take(i as int)),
                    },
                    ..m0
                }),
            decreases c.len() - i,
        {
            let snap = &community[i];
            proof {
                lemma_sum_by_take_step(c, i as int, reddit_users_of());
                lemma_sum_by_take_step(c, i as int, reddit_posts_of());
                lemma_clip_add(
                    m0.reddit_subscribers as nat + sum_by(c.take(i as int), reddit_users_of()),
                    reddit_users_of()(c[i as int]) as u64,
                );
                lemma_clip_add(
                    m0.reddit_posts_30d as nat + sum_by(c.take(i as int), reddit_posts_of()),
                    reddit_posts_of()(c[i as int]) as u64,
                );
                lemma_spec_subreddit_push(c.take(i as int), c[i as int]);
                assert(c.take(i + 1) =~= c.take(i as int).push(c[i as int]));
            }
            if str_has_prefix(snap.source.as_str(), "reddit:") {
                if let Some(u) = snap.active_users_30d {
                    out.reddit_subscribers = saturating_add_u64(out.reddit_subscribers, u);
                }
                if let Some(p) = snap.posts_30d {
                    out.reddit_posts_30d = saturating_add_u64(out.reddit_posts_30d, p);
                }
                if out.subreddit.is_none() {
                    if str_has_prefix(snap.source.as_str(), "reddit:r/") {
                        proof {
                            reveal_strlit("reddit:r/");
                        }
                        let len = snap.source.as_str().unicode_len();
                        let name = snap.source.as_str().substring_char(9, len);
                        proof {
                            assert(name@ =~= strip_channel(snap.source@));
                        }
                        out.subreddit = Some(name.to_owned());
                    }
                }
            } else {
                proof {
                    if is_reddit_channel(c[i as int].source@) {
                        lemma_channel_implies_source(c[i as int].source@);
                    }
                }
            }
            i = i + 1;
        }
        proof {
            assert(c.take(c.len() as int) =~= c);
        }
        out
    }

    /// Adds release metrics: the release count, the count of full
    /// releases published in the trailing 30 days before `now`, and the
    /// tag and age in days of the most recently published full release,
    /// leaving every other field as it was.
    pub fn with_releases(self, releases: &Vec<ReleaseSnapshot>, now: i64) -> (m: Self)
        requires
            now as int - 2592000 >= i64::MIN as int,
            forall|i: int| 0 <= i < releases@.len()
                ==> (#[trigger] releases@[i].published_at matches Some(p)
                    ==> now as int - p as int <= i64::MAX as int
                        && p as int - now as int <= i64::MAX as int),
        ensures
            m@ == (RawMetricsView {
                total_releases: releases@.len() as u64,
                releases_30d: spec_releases_30d(releases@, now as int),
                latest_release: match spec_latest_release(releases@) {
                    None => None,
                    Some(r) => Some(r.tag_name@),
                },
                days_since_release: match spec_latest_release(releases@) {
                    None => None,
                    Some(r) => match r.published_at {
                        None => None,
                        Some(p) => Some(spec_days_between(now as int, p as int) as i64),
                    },
                },
                ..self@
            }),
    {
        let ghost m0 = self@;
        let ghost rs = releases@;
        let mut out = self;
        let cutoff = now - 2592000;
        let mut count: u64 = 0;
        let mut best: Option<usize> = None;
        let mut i: usize = 0;
        while i < releases.len()
            invariant
                0 <= i <= rs.len(),
                rs == releases@,
                cutoff == now - 2592000,
                forall|k: int| 0 <= k < rs.len()
                    ==> (#[trigger] rs[k].published_at matches Some(p)
                        ==> now as int - p as int <= i64::MAX as int
                            && p as int - now as int <= i64::MAX as int),
                count == clip_u64(sum_by(rs.take(i as int), recent_release_of(now as int))),
                match best {
                    None => spec_latest_release(rs.take(i as int)) is None,
                    Some(j) => j < i && !rs[j as int].is_prerelease
                        && spec_latest_release(rs.take(i as int)) == Some(rs[j as int]),
                },
            decreases rs.len() - i,
        {
            let r = &releases[i];
            proof {
                lemma_sum_by_take_step(rs, i as int, recent_release_of(now as int));
                lemma_clip_add(
                    sum_by(rs.take(i as int), recent_release_of(now as int)),
                    recent_release_of(now as int)(rs[i as int]) as u64,
                );
                assert(rs.take(i + 1).drop_last() =~= rs.take(i as int));
            }
            if !r.is_prerelease {
                if let Some(d) = r.published_at {
                    if d > cutoff {
                        count = saturating_add_u64(count, 1);
                    }
                }
                let replace = match best {
                    None => true,
                    Some(j) => opt_time_le(&releases[j].published_at, &r.published_at),
                };
                if replace {
                    best = Some(i);
                }
            }
            i = i + 1;
        }
        proof {
            assert(rs.take(rs.len() as int) =~= rs);
        }
        out.total_releases = releases.len() as u64;
        out.releases_30d = count;
        match best {
            None => {
                out.latest_release = None;
                out.days_since_release = None;
            },
            Some(j) => {
                out.latest_release = Some(releases[j].tag_name.clone());
                out.days_since_release = match releases[j].published_at {
                    Some(p) => Some(days_between(now, p)),
                    None => None,
                };
            },
        }
        out
    }
}

} // verus!
