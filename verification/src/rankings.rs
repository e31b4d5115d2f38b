//! Ranking and history views over score records: a total order of
//! distributions by descending overall score with 1-based ranks, and a
//! bounded trailing window over one distribution's score history.

use vstd::prelude::*;
use crate::metrics::{spec_metrics_zero, RawMetrics, RawMetricsView};
use crate::models::{Distribution, DistributionView, HealthScore, Trend};

verus! {

/// Summary of a distribution's health for presentation.
#[derive(Clone, Debug)]
pub struct DistroHealthSummary {
    pub slug: String,
    pub name: String,
    pub overall_score: u32,
    pub development_score: u32,
    pub community_score: u32,
    pub maintenance_score: u32,
    pub trend: Trend,
    pub rank: usize,
    pub metrics: RawMetrics,
    pub github_org: Option<String>,
    pub subreddit: Option<String>,
    pub description: Option<String>,
}

/// Mathematical model of a health summary, with strings as character
/// sequences.
pub struct DistroHealthSummaryView {
    pub slug: Seq<char>,
    pub name: Seq<char>,
    pub overall_score: u32,
    pub development_score: u32,
    pub community_score: u32,
    pub maintenance_score: u32,
    pub trend: Trend,
    pub rank: int,
    pub metrics: RawMetricsView,
    pub github_org: Option<Seq<char>>,
    pub subreddit: Option<Seq<char>>,
    pub description: Option<Seq<char>>,
}

impl View for DistroHealthSummary {
    type V = DistroHealthSummaryView;

    open spec fn view(&self) -> DistroHealthSummaryView {
        DistroHealthSummaryView {
            slug: self.slug@,
            name: self.name@,
            overall_score: self.overall_score,
            development_score: self.development_score,
            community_score: self.community_score,
            maintenance_score: self.maintenance_score,
            trend: self.trend,
            rank: self.rank as int,
            metrics: self.metrics@,
            github_org: self.github_org.deep_view(),
            subreddit: self.subreddit.deep_view(),
            description: self.description.deep_view(),
        }
    }
}

impl DeepView for DistroHealthSummary {
    type V = DistroHealthSummaryView;

    open spec fn deep_view(&self) -> DistroHealthSummaryView {
        self.view()
    }
}

/// Score records in non-increasing order of overall score.
pub open spec fn sorted_descending(s: Seq<HealthScore>) -> bool {
    forall|i: int, j: int| 0 <= i < j < s.len()
        ==> #[trigger] s[i].overall_score >= #[trigger] s[j].overall_score
}

/// Score records in non-decreasing order of calculation time.
pub open spec fn sorted_by_time(s: Seq<HealthScore>) -> bool {
    forall|i: int, j: int| 0 <= i < j < s.len()
        ==> #[trigger] s[i].calculated_at <= #[trigger] s[j].calculated_at
}

/// Orders score records by descending overall score. The result holds
/// exactly the given records.
pub fn sort_scores_descending(scores: Vec<HealthScore>) -> (r: Vec<HealthScore>)
    ensures
        r@.to_multiset() == scores@.to_multiset(),
        r@.len() == scores@.len(),
        sorted_descending(r@),
{
    let ghost orig = scores@;
    let mut rest = scores;
    let mut out: Vec<HealthScore> = Vec::new();
    proof {
        broadcast use vstd::seq_lib::group_to_multiset_ensures;
        broadcast use vstd::multiset::group_multiset_axioms;

        vstd::multiset::lemma_multiset_empty_len::<HealthScore>(out@.to_multiset());
        assert(out@.to_multiset().add(rest@.to_multiset()) =~= orig.to_multiset());
    }
    while rest.len() > 0
        invariant
            out@.to_multiset().add(rest@.to_multiset()) == orig.to_multiset(),
            out@.len() + rest@.len() == orig.len(),
            sorted_descending(out@),
            forall|a: int, b: int| 0 <= a < out@.len() && 0 <= b < rest@.len()
                ==> out@[a].overall_score >= rest@[b].overall_score,
        decreases rest@.len(),
    {
        let mut m: usize = 0;
        let mut k: usize = 1;
        while k < rest.len()
            invariant
                0 <= m < rest@.len(),
                1 <= k <= rest@.len(),
                forall|t: int| 0 <= t < k ==> rest@[m as int].overall_score
                    >= rest@[t].overall_score,
            decreases rest@.len() - k,
        {
            if rest[k].overall_score > rest[m].overall_score {
                m = k;
            }
            k = k + 1;
        }
        let ghost before = rest@;
        let x = rest.remove(m);
        out.push(x);
        proof {
            broadcast use vstd::seq_lib::group_to_multiset_ensures;

            assert(before.remove(m as int).to_multiset() =~= before.to_multiset().remove(x));
            assert(out@.to_multiset().add(rest@.to_multiset()) =~= orig.to_multiset());
            assert(forall|b: int| 0 <= b < rest@.len() ==> rest@[b] == (if b < m as int {
                before[b]
            } else {
                before[b + 1]
            }));
        }
    }
    proof {
        broadcast use vstd::seq_lib::group_to_multiset_ensures;
        broadcast use vstd::multiset::group_multiset_axioms;

        vstd::multiset::lemma_multiset_empty_len::<HealthScore>(rest@.to_multiset());
        assert(out@.to_multiset() =~= orig.to_multiset());
    }
    out
}

/// Orders score records by ascending calculation time. The result holds
/// exactly the given records.
pub fn sort_scores_by_time(scores: Vec<HealthScore>) -> (r: Vec<HealthScore>)
    ensures
        r@.to_multiset() == scores@.to_multiset(),
        r@.len() == scores@.len(),
        sorted_by_time(r@),
{
    let ghost orig = scores@;
    let mut rest = scores;
    let mut out: Vec<HealthScore> = Vec::new();
    proof {
        broadcast use vstd::seq_lib::group_to_multiset_ensures;
        broadcast use vstd::multiset::group_multiset_axioms;

        vstd::multiset::lemma_multiset_empty_len::<HealthScore>(out@.to_multiset());
        assert(out@.to_multiset().add(rest@.to_multiset()) =~= orig.to_multiset());
    }
    while rest.len() > 0
        invariant
            out@.to_multiset().add(rest@.to_multiset()) == orig.to_multiset(),
            out@.len() + rest@.len() == orig.len(),
            sorted_by_time(out@),
            forall|a: int, b: int| 0 <= a < out@.len() && 0 <= b < rest@.len()
                ==> out@[a].calculated_at <= rest@[b].calculated_at,
        decreases rest@.len(),
    {
        let mut m: usize = 0;
        let mut k: usize = 1;
        while k < rest.len()
            invariant
                0 <= m < rest@.len(),
                1 <= k <= rest@.len(),
                forall|t: int| 0 <= t < k ==> rest@[m as int].calculated_at
                    <= rest@[t].calculated_at,
            decreases rest@.len() - k,
        {
            if rest[k].calculated_at < rest[m].calculated_at {
                m = k;
            }
            k = k + 1;
        }
        let ghost before = rest@;
        let x = rest.remove(m);
        out.push(x);
        proof {
            broadcast use vstd::seq_lib::group_to_multiset_ensures;

            assert(before.remove(m as int).to_multiset() =~= before.to_multiset().remove(x));
            assert(out@.to_multiset().add(rest@.to_multiset()) =~= orig.to_multiset());
            assert(forall|b: int| 0 <= b < rest@.len() ==> rest@[b] == (if b < m as int {
                before[b]
            } else {
                before[b + 1]
            }));
        }
    }
    proof {
        broadcast use vstd::seq_lib::group_to_multiset_ensures;
        broadcast use vstd::multiset::group_multiset_axioms;

        vstd::multiset::lemma_multiset_empty_len::<HealthScore>(rest@.to_multiset());
        assert(out@.to_multiset() =~= orig.to_multiset());
    }
    out
}

/// Keeps a record when its calculation time lies at or after `cutoff`.
pub open spec fn in_window(cutoff: int) -> spec_fn(HealthScore) -> bool {
    |r: HealthScore| r.calculated_at >= cutoff
}

/// The score history of one distribution over a trailing window: all
/// records calculated within the last `days` days before `now`,
/// ascending by calculation time.
pub fn history_window(records: &Vec<HealthScore>, now: i64, days: i32) -> (h: Vec<HealthScore>)
    requires
        days >= 0,
        now as int - (days as int) * 86400 >= i64::MIN as int,
    ensures
        h@.to_multiset() == records@.filter(in_window(now as int - (days as int) * 86400))
            .to_multiset(),
        sorted_by_time(h@),
{
    let ghost rs = records@;
    let ghost cutoff_spec = now as int - (days as int) * 86400;
    let cutoff: i64 = now - (days as i64) * 86400;
    let mut kept: Vec<HealthScore> = Vec::new();
    let mut i: usize = 0;
    while i < records.len()
        invariant
            0 <= i <= rs.len(),
            rs == records@,
            cutoff == cutoff_spec,
            kept@ == rs.take(i as int).filter(in_window(cutoff_spec)),
        decreases rs.len() - i,
    {
        proof {
            reveal(Seq::filter);
            assert(rs.take(i + 1).drop_last() =~= rs.take(i as int));
            assert(rs.take(i + 1).last() == rs[i as int]);
        }
        let r = records[i];
        if r.calculated_at >= cutoff {
            kept.push(r);
        }
        i = i + 1;
    }
    proof {
        reveal(Seq::filter);
        assert(rs.take(rs.len() as int) =~= rs);
    }
    sort_scores_by_time(kept)
}


/// First index of the distribution with the given id, if any.
pub open spec fn spec_find_distro(ds: Seq<DistributionView>, id: i64) -> Option<int>
    decreases ds.len(),
{
    if ds.len() == 0 {
        None
    } else if ds.first().id == id {
        Some(0int)
    } else {
        match spec_find_distro(ds.drop_first(), id) {
            None => None,
            Some(j) => Some(j + 1),
        }
    }
}

/// The found index is the first whose distribution carries the id; a
/// miss means no distribution carries it.
proof fn lemma_find_distro_char(ds: Seq<DistributionView>, id: i64)
    ensures
        match spec_find_distro(ds, id) {
            None => forall|k: int| 0 <= k < ds.len() ==> ds[k].id != id,
            Some(j) => 0 <= j < ds.len() && ds[j].id == id && forall|k: int|
                0 <= k < j ==> ds[k].id != id,
        },
    decreases ds.len(),
{
    if ds.len() > 0 && ds.first().id != id {
        lemma_find_distro_char(ds.drop_first(), id);
        match spec_find_distro(ds.drop_first(), id) {
            None => {
                assert forall|k: int| 0 <= k < ds.len() implies ds[k].id != id by {
                    if k > 0 {
                        assert(ds[k] == ds.drop_first()[k - 1]);
                    }
                }
            },
            Some(j) => {
                assert(ds[j + 1] == ds.drop_first()[j]);
                assert forall|k: int| 0 <= k < j + 1 implies ds[k].id != id by {
                    if k > 0 {
                        assert(ds[k] == ds.drop_first()[k - 1]);
                    }
                }
            },
        }
    }
}

/// Presentation record of a distribution with its latest score record.
pub open spec fn spec_scored_summary(
    d: DistributionView,
    m: RawMetricsView,
    s: HealthScore,
    rank: int,
) -> DistroHealthSummaryView {
    DistroHealthSummaryView {
        slug: d.slug,
        name: d.name,
        overall_score: s.overall_score,
        development_score: s.development_score,
        community_score: s.community_score,
        maintenance_score: s.maintenance_score,
        trend: s.trend,
        rank: rank,
        metrics: m,
        github_org: d.github_org,
        subreddit: d.subreddit,
        description: d.description,
    }
}

/// Presentation record of a distribution with no score record yet:
/// zero scores and the display-only unknown trend.
pub open spec fn spec_unscored_summary(d: DistributionView, rank: int) -> DistroHealthSummaryView {
    DistroHealthSummaryView {
        slug: d.slug,
        name: d.name,
        overall_score: 0,
        development_score: 0,
        community_score: 0,
        maintenance_score: 0,
        trend: Trend::Unknown,
        rank: rank,
        metrics: spec_metrics_zero(),
        github_org: d.github_org,
        subreddit: d.subreddit,
        description: d.description,
    }
}

/// The ranked part of the rankings: one summary per score record whose
/// distribution is known, ranked by the record's 1-based position in
/// the score list.
pub open spec fn spec_ranked_summaries(
    ds: Seq<DistributionView>,
    ms: Seq<RawMetricsView>,
    ss: Seq<HealthScore>,
) -> Seq<DistroHealthSummaryView>
    decreases ss.len(),
{
    if ss.len() == 0 {
        Seq::empty()
    } else {
        let prefix = spec_ranked_summaries(ds, ms, ss.drop_last());
        match spec_find_distro(ds, ss.last().distro_id) {
            None => prefix,
            Some(j) => prefix.push(
                spec_scored_summary(ds[j], ms[j], ss.last(), ss.len() as int),
            ),
        }
    }
}

/// Whether some summary already carries the slug.
pub open spec fn spec_contains_slug(s: Seq<DistroHealthSummaryView>, slug: Seq<char>) -> bool {
    exists|i: int| 0 <= i < s.len() && s[i].slug == slug
}

/// Appends, for every distribution whose slug is not yet present, an
/// unscored summary ranked by its position at the time of insertion.
pub open spec fn spec_append_unscored(
    ds: Seq<DistributionView>,
    acc: Seq<DistroHealthSummaryView>,
) -> Seq<DistroHealthSummaryView>
    decreases ds.len(),
{
    if ds.len() == 0 {
        acc
    } else {
        let acc2 = if spec_contains_slug(acc, ds.first().slug) {
            acc
        } else {
            acc.push(spec_unscored_summary(ds.first(), acc.len() as int + 1))
        };
        spec_append_unscored(ds.drop_first(), acc2)
    }
}

/// Appending one distribution appends at most its own unscored summary.
proof fn lemma_append_unscored_push(
    ds: Seq<DistributionView>,
    acc: Seq<DistroHealthSummaryView>,
    x: DistributionView,
)
    ensures
        spec_contains_slug(spec_append_unscored(ds, acc), x.slug)
            ==> spec_append_unscored(ds.push(x), acc) == spec_append_unscored(ds, acc),
        !spec_contains_slug(spec_append_unscored(ds, acc), x.slug)
            ==> spec_append_unscored(ds.push(x), acc) == spec_append_unscored(ds, acc).push(
                spec_unscored_summary(x, spec_append_unscored(ds, acc).len() as int + 1),
            ),
    decreases ds.len(),
{
    let t = ds.push(x);
    let a0 = spec_append_unscored(ds, acc);
    if ds.len() == 0 {
        assert(a0 == acc);
        assert(t.first() == x);
        assert(t.drop_first() =~= Seq::<DistributionView>::empty());
        if spec_contains_slug(acc, x.slug) {
            assert(spec_append_unscored(t, acc) == spec_append_unscored(t.drop_first(), acc));
            assert(spec_append_unscored(t.drop_first(), acc) == acc);
        } else {
            let acc2 = acc.push(spec_unscored_summary(x, acc.len() as int + 1));
            assert(spec_append_unscored(t, acc) == spec_append_unscored(t.drop_first(), acc2));
            assert(spec_append_unscored(t.drop_first(), acc2) == acc2);
        }
    } else {
        assert(t.first() == ds.first());
        assert(t.drop_first() =~= ds.drop_first().push(x));
        let acc2 = if spec_contains_slug(acc, ds.first().slug) {
            acc
        } else {
            acc.push(spec_unscored_summary(ds.first(), acc.len() as int + 1))
        };
        assert(spec_append_unscored(t, acc) == spec_append_unscored(t.drop_first(), acc2));
        assert(a0 == spec_append_unscored(ds.drop_first(), acc2));
        lemma_append_unscored_push(ds.drop_first(), acc2, x);
    }
}

/// The complete rankings: the ranked summaries of all score records
/// first, then an unscored summary for every distribution not yet
/// listed, in input order.
pub open spec fn spec_rankings(
    ds: Seq<DistributionView>,
    ms: Seq<RawMetricsView>,
    ss: Seq<HealthScore>,
) -> Seq<DistroHealthSummaryView> {
    spec_append_unscored(ds, spec_ranked_summaries(ds, ms, ss))
}

/// An owned copy of an optional string, equal to it in the model.
fn clone_opt_string(o: &Option<String>) -> (r: Option<String>)
    ensures
        r.deep_view() == o.deep_view(),
{
    match o {
        Some(s) => Some(s.clone()),
        None => None,
    }
}

/// First index of the distribution carrying the id, scanning in input
/// order.
fn find_distro_index(distros: &Vec<Distribution>, id: i64) -> (r: Option<usize>)
    ensures
        match r {
            Some(j) => j < distros@.len() && spec_find_distro(distros.deep_view(), id) == Some(
                j as int,
            ),
            None => spec_find_distro(distros.deep_view(), id) is None,
        },
{
    let ghost dv = distros.deep_view();
    proof {
        lemma_find_distro_char(dv, id);
    }
    let mut k: usize = 0;
    while k < distros.len()
        invariant
            0 <= k <= dv.len(),
            dv == distros.deep_view(),
            forall|t: int| 0 <= t < k ==> dv[t].id != id,
        decreases dv.len() - k,
    {
        if distros[k].id == id {
            proof {
                assert(dv[k as int].id == id);
                lemma_find_distro_char(dv, id);
            }
            return Some(k);
        }
        k = k + 1;
    }
    proof {
        lemma_find_distro_char(dv, id);
    }
    None
}

/// Whether some summary already carries the slug.
fn contains_slug(out: &Vec<DistroHealthSummary>, slug: &String) -> (b: bool)
    ensures
        b == spec_contains_slug(out.deep_view(), slug@),
{
    let ghost ov = out.deep_view();
    let mut k: usize = 0;
    while k < out.len()
        invariant
            0 <= k <= ov.len(),
            ov == out.deep_view(),
            forall|t: int| 0 <= t < k ==> ov[t].slug != slug@,
        decreases ov.len() - k,
    {
        if out[k].slug.eq(slug) {
            proof {
                assert(ov[k as int].slug == slug@);
            }
            return true;
        }
        k = k + 1;
    }
    false
}

/// Builds the rankings of all distributions: one summary per score
/// record (descending-ordered score records give descending rankings),
/// ranked by position, followed by an unscored summary for every
/// distribution without a score record, in input order. `metrics[i]`
/// is the aggregated summary of `distros[i]`.
pub fn build_rankings(
    distros: &Vec<Distribution>,
    metrics: &Vec<RawMetrics>,
    scores: &Vec<HealthScore>,
) -> (r: Vec<DistroHealthSummary>)
    requires
        metrics@.len() == distros@.len(),
        distros@.len() + scores@.len() < usize::MAX,
    ensures
        r.deep_view() == spec_rankings(distros.deep_view(), metrics.deep_view(), scores@),
{
    let ghost dv = distros.deep_view();
    let ghost mv = metrics.deep_view();
    let ghost sv = scores@;
    let mut out: Vec<DistroHealthSummary> = Vec::new();
    let mut idx: usize = 0;
    while idx < scores.len()
        invariant
            0 <= idx <= sv.len(),
            dv == distros.deep_view(),
            mv == metrics.deep_view(),
            sv == scores@,
            metrics@.len() == distros@.len(),
            out.deep_view() == spec_ranked_summaries(dv, mv, sv.take(idx as int)),
            out@.len() <= idx,
        decreases sv.len() - idx,
    {
        proof {
            assert(sv.take(idx + 1).drop_last() =~= sv.take(idx as int));
            assert(sv.take(idx + 1).last() == sv[idx as int]);
        }
        let score = scores[idx];
        match find_distro_index(distros, score.distro_id) {
            Some(j) => {
                let d = &distros[j];
                let summary = DistroHealthSummary {
                    slug: d.slug.clone(),
                    name: d.name.clone(),
                    overall_score: score.overall_score,
                    development_score: score.development_score,
                    community_score: score.community_score,
                    maintenance_score: score.maintenance_score,
                    trend: score.trend,
                    rank: idx + 1,
                    metrics: metrics[j].duplicate(),
                    github_org: clone_opt_string(&d.github_org),
                    subreddit: clone_opt_string(&d.subreddit),
                    description: clone_opt_string(&d.description),
                };
                let ghost before = out.deep_view();
                out.push(summary);
                proof {
                    assert(out.deep_view() =~= before.push(
                        spec_scored_summary(dv[j as int], mv[j as int], sv[idx as int],
                            idx as int + 1),
                    ));
                }
            },
            None => {},
        }
        idx = idx + 1;
    }
    proof {
        assert(sv.take(sv.len() as int) =~= sv);
    }
    let ghost phase1 = spec_ranked_summaries(dv, mv, sv);
    let mut di: usize = 0;
    while di < distros.len()
        invariant
            0 <= di <= dv.len(),
            dv == distros.deep_view(),
            sv == scores@,
            distros@.len() + scores@.len() < usize::MAX,
            phase1 == spec_ranked_summaries(dv, mv, sv),
            out.deep_view() == spec_append_unscored(dv.take(di as int), phase1),
            out@.len() <= sv.len() + di,
        decreases dv.len() - di,
    {
        proof {
            assert(dv.take(di + 1) =~= dv.take(di as int).push(dv[di as int]));
            lemma_append_unscored_push(dv.take(di as int), phase1, dv[di as int]);
        }
        let d = &distros[di];
        if !contains_slug(&out, &d.slug) {
            let rank = out.len() + 1;
            let summary = DistroHealthSummary {
                slug: d.slug.clone(),
                name: d.name.clone(),
                overall_score: 0,
                development_score: 0,
                community_score: 0,
                maintenance_score: 0,
                trend: Trend::Unknown,
                rank,
                metrics: RawMetrics::default(),
                github_org: clone_opt_string(&d.github_org),
                subreddit: clone_opt_string(&d.subreddit),
                description: clone_opt_string(&d.description),
            };
            let ghost before = out.deep_view();
            out.push(summary);
            proof {
                assert(out.deep_view() =~= before.push(
                    spec_unscored_summary(dv[di as int], before.len() as int + 1),
                ));
            }
        }
        di = di + 1;
    }
    proof {
        assert(dv.take(dv.len() as int) =~= dv);
    }
    out
}

} // verus!
