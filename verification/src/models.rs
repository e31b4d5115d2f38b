//! Data model: tracked distributions, append-only metric snapshots and
//! calculated score records.
//!
//! Timestamps are seconds since the Unix epoch; metric counts are
//! non-negative; scores are thousandths of a point in `[0, 100_000]`.

use vstd::prelude::*;

verus! {

/// A score of one hundred points, in thousandths of a point.
pub const SCORE_MAX: u32 = 100_000;

/// The neutral score substituted when a snapshot set is empty: fifty
/// points, in thousandths of a point.
pub const SCORE_NEUTRAL: u32 = 50_000;

/// A valid score lies between zero and one hundred points.
pub open spec fn valid_score(s: u32) -> bool {
    s <= SCORE_MAX
}

/// Direction of change of an entity's overall score since its previous
/// score record. `Unknown` is a display-only fourth value used for
/// entities with no score history; the scoring engine itself only ever
/// produces `Up`, `Down` or `Stable`.
#[derive(Clone, Copy, Debug, PartialEq, Eq, Structural)]
pub enum Trend {
    Up,
    Down,
    Stable,
    Unknown,
}

impl Trend {
    /// The label under which this trend is stored and displayed.
    pub open spec fn spec_label(self) -> Seq<char> {
        match self {
            Trend::Up => "up"@,
            Trend::Down => "down"@,
            Trend::Stable => "stable"@,
            Trend::Unknown => "unknown"@,
        }
    }

    /// Returns the trend's label.
    pub fn label(&self) -> (s: &'static str)
        ensures
            s@ == self.spec_label(),
    {
        match self {
            Trend::Up => "up",
            Trend::Down => "down",
            Trend::Stable => "stable",
            Trend::Unknown => "unknown",
        }
    }
}

/// A Linux distribution being tracked.
#[derive(Clone, Debug)]
pub struct Distribution {
    pub id: i64,
    pub name: String,
    pub slug: String,
    pub homepage: Option<String>,
    pub github_org: Option<String>,
    pub gitlab_group: Option<String>,
    pub subreddit: Option<String>,
    pub description: Option<String>,
    pub created_at: i64,
    pub updated_at: i64,
}

/// Mathematical model of a tracked distribution, with strings as
/// character sequences.
pub struct DistributionView {
    pub id: i64,
    pub name: Seq<char>,
    pub slug: Seq<char>,
    pub homepage: Option<Seq<char>>,
    pub github_org: Option<Seq<char>>,
    pub gitlab_group: Option<Seq<char>>,
    pub subreddit: Option<Seq<char>>,
    pub description: Option<Seq<char>>,
    pub created_at: i64,
    pub updated_at: i64,
}

impl View for Distribution {
    type V = DistributionView;

    open spec fn view(&self) -> DistributionView {
        DistributionView {
            id: self.id,
            name: self.name@,
            slug: self.slug@,
            homepage: self.homepage.deep_view(),
            github_org: self.github_org.deep_view(),
            gitlab_group: self.gitlab_group.deep_view(),
            subreddit: self.subreddit.deep_view(),
            description: self.description.deep_view(),
            created_at: self.created_at,
            updated_at: self.updated_at,
        }
    }
}

impl DeepView for Distribution {
    type V = DistributionView;

    open spec fn deep_view(&self) -> DistributionView {
        self.view()
    }
}

/// Input for creating a new distribution.
#[derive(Clone, Debug)]
pub struct NewDistribution {
    pub name: String,
    pub slug: String,
    pub homepage: Option<String>,
    pub github_org: Option<String>,
    pub gitlab_group: Option<String>,
    pub subreddit: Option<String>,
    pub description: Option<String>,
}

/// GitHub repository metrics snapshot: one row per (distribution,
/// repository, collection time). Append-only.
#[derive(Clone, Debug)]
pub struct GithubSnapshot {
    pub id: i64,
    pub distro_id: i64,
    pub repo_name: String,
    pub stars: u64,
    pub forks: u64,
    pub open_issues: u64,
    pub open_prs: u64,
    pub commits_30d: u64,
    pub commits_365d: u64,
    pub contributors_30d: u64,
    pub last_commit_at: Option<i64>,
    pub collected_at: i64,
}

/// Input for creating a GitHub snapshot.
#[derive(Clone, Debug)]
pub struct NewGithubSnapshot {
    pub distro_id: i64,
    pub repo_name: String,
    pub stars: u64,
    pub forks: u64,
    pub open_issues: u64,
    pub open_prs: u64,
    pub commits_30d: u64,
    pub commits_365d: u64,
    pub contributors_30d: u64,
    pub last_commit_at: Option<i64>,
}

/// Package repository metrics snapshot.
#[derive(Clone, Copy, Debug, PartialEq, Eq, Structural)]
pub struct PackageSnapshot {
    pub id: i64,
    pub distro_id: i64,
    pub total_packages: u64,
    pub outdated_packages: u64,
    pub security_updates: u64,
    pub collected_at: i64,
}

/// Community metrics snapshot (forums, mailing lists, etc.): one row per
/// (distribution, named source, collection time). Fields are optional
/// because sources differ in what they report. Append-only.
#[derive(Clone, Debug)]
pub struct CommunitySnapshot {
    pub id: i64,
    pub distro_id: i64,
    pub source: String,
    pub active_users_30d: Option<u64>,
    pub posts_30d: Option<u64>,
    pub collected_at: i64,
}

/// Input for creating a community snapshot.
#[derive(Clone, Debug)]
pub struct NewCommunitySnapshot {
    pub distro_id: i64,
    pub source: String,
    pub active_users_30d: Option<u64>,
    pub posts_30d: Option<u64>,
}

/// Release snapshot: one row per (distribution, repository, release tag,
/// collection time). Append-only.
#[derive(Clone, Debug)]
pub struct ReleaseSnapshot {
    pub id: i64,
    pub distro_id: i64,
    pub repo_name: String,
    pub tag_name: String,
    pub release_name: Option<String>,
    pub published_at: Option<i64>,
    pub is_prerelease: bool,
    pub collected_at: i64,
}

/// Input for creating a release snapshot.
#[derive(Clone, Debug)]
pub struct NewReleaseSnapshot {
    pub distro_id: i64,
    pub repo_name: String,
    pub tag_name: String,
    pub release_name: Option<String>,
    pub published_at: Option<i64>,
    pub is_prerelease: bool,
}

/// Calculated health score for a distribution, produced solely by the
/// scoring engine. Append-only; never mutated.
#[derive(Clone, Copy, Debug, PartialEq, Eq, Structural)]
pub struct HealthScore {
    pub id: i64,
    pub distro_id: i64,
    pub overall_score: u32,
    pub development_score: u32,
    pub community_score: u32,
    pub maintenance_score: u32,
    pub trend: Trend,
    pub calculated_at: i64,
}

/// Input for creating a health score record.
#[derive(Clone, Copy, Debug, PartialEq, Eq, Structural)]
pub struct NewHealthScore {
    pub distro_id: i64,
    pub overall_score: u32,
    pub development_score: u32,
    pub community_score: u32,
    pub maintenance_score: u32,
    pub trend: Trend,
}

impl NewHealthScore {
    /// All four scores lie in the valid range and the trend is one the
    /// engine produces: what holds of every record the engine emits.
    pub open spec fn wf(self) -> bool {
        &&& valid_score(self.overall_score)
        &&& valid_score(self.development_score)
        &&& valid_score(self.community_score)
        &&& valid_score(self.maintenance_score)
        &&& self.trend != Trend::Unknown
    }
}

/// Errors of the storage layer, as the rest of the system sees them.
#[derive(Clone, Debug)]
pub enum DatabaseError {
    /// The store could not be reached or a query failed.
    Connection(String),
    /// A schema migration failed.
    Migration(String),
    /// A requested record does not exist.
    NotFound(String),
}

/// Errors of the analysis layer.
///
/// `InsufficientData` is defined for a possible future stricter mode but
/// is never raised by the scoring engine: every input shape, including
/// fully empty snapshot sets, maps to a valid score through the neutral
/// defaults.
#[derive(Clone, Debug)]
pub enum AnalyzerError {
    /// A storage error encountered while fetching inputs or persisting
    /// the result.
    Database(DatabaseError),
    /// Reserved: no snapshot data at all was available.
    InsufficientData,
}

} // verus!
