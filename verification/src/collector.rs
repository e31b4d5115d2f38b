//! The computational pieces of the metric collectors: window totals
//! over weekly commit counts, post counting against a cutoff, and the
//! rate-limit wait. The HTTP calls around them live outside the
//! library.

use vstd::prelude::*;
use crate::sums::{clip_u64, lemma_clip_add, lemma_sum_by_bounded, lemma_sum_by_take_step,
    saturating_add_u64, sum_by};

verus! {

/// Configuration for collectors. The default configuration is resolved
/// from the process environment by the caller.
#[derive(Clone, Debug)]
pub struct CollectorConfig {
    pub github_token: Option<String>,
    pub user_agent: String,
}

/// Extracts a weekly commit count.
pub open spec fn count_of() -> spec_fn(u64) -> nat {
    |x: u64| x as nat
}

/// The start of the trailing four-week window.
pub open spec fn spec_window_start(len: int) -> int {
    if len < 4 {
        0
    } else {
        len - 4
    }
}

/// Sums weekly commit counts into the trailing four-week total and the
/// whole-series total, in that order, saturating at `u64::MAX`.
pub fn commit_window_totals(weekly: &Vec<u64>) -> (t: (u64, u64))
    ensures
        t.0 == clip_u64(
            sum_by(
                weekly@.subrange(spec_window_start(weekly@.len() as int), weekly@.len() as int),
                count_of(),
            ),
        ),
        t.1 == clip_u64(sum_by(weekly@, count_of())),
{
    let ghost w = weekly@;
    let mut total: u64 = 0;
    let mut i: usize = 0;
    while i < weekly.len()
        invariant
            0 <= i <= w.len(),
            w == weekly@,
            total == clip_u64(sum_by(w.take(i as int), count_of())),
        decreases w.len() - i,
    {
        proof {
            lemma_sum_by_take_step(w, i as int, count_of());
            lemma_clip_add(sum_by(w.take(i as int), count_of()), w[i as int]);
        }
        total = saturating_add_u64(total, weekly[i]);
        i = i + 1;
    }
    proof {
        assert(w.take(w.len() as int) =~= w);
    }

    let start: usize = if weekly.len() < 4 {
        0
    } else {
        weekly.len() - 4
    };
    let mut recent: u64 = 0;
    let mut j: usize = start;
    while j < weekly.len()
        invariant
            start == spec_window_start(w.len() as int),
            start <= j <= w.len(),
            w == weekly@,
            recent == clip_u64(sum_by(w.subrange(start as int, j as int), count_of())),
        decreases w.len() - j,
    {
        proof {
            assert(w.subrange(start as int, j + 1).drop_last() =~= w.subrange(
                start as int,
                j as int,
            ));
            assert(w.subrange(start as int, j + 1).last() == w[j as int]);
            lemma_clip_add(sum_by(w.subrange(start as int, j as int), count_of()), w[j as int]);
        }
        recent = saturating_add_u64(recent, weekly[j]);
        j = j + 1;
    }
    (recent, total)
}

/// Counts a post lying at or after the cutoff.
pub open spec fn since_of(cutoff: int) -> spec_fn(i64) -> nat {
    |t: i64| if t >= cutoff {
        1nat
    } else {
        0nat
    }
}

/// Counts the posts created at or after `cutoff`.
pub fn count_posts_since(times: &Vec<i64>, cutoff: i64) -> (n: u64)
    ensures
        n == sum_by(times@, since_of(cutoff as int)),
        n <= times@.len(),
{
    let ghost ts = times@;
    let mut n: u64 = 0;
    let mut i: usize = 0;
    while i < times.len()
        invariant
            0 <= i <= ts.len(),
            ts == times@,
            n == sum_by(ts.take(i as int), since_of(cutoff as int)),
            n <= i,
        decreases ts.len() - i,
    {
        proof {
            lemma_sum_by_take_step(ts, i as int, since_of(cutoff as int));
        }
        if times[i] >= cutoff {
            n = n + 1;
        }
        i = i + 1;
    }
    proof {
        assert(ts.take(ts.len() as int) =~= ts);
        lemma_sum_by_bounded(ts, since_of(cutoff as int));
    }
    n
}

/// Seconds to wait until the reported rate-limit reset time: the gap
/// from `now` to `reset`, or nothing when the reset has passed.
pub fn rate_limit_wait(reset: u64, now: u64) -> (w: u64)
    ensures
        w == if reset >= now {
            reset - now
        } else {
            0
        },
{
    if reset >= now {
        reset - now
    } else {
        0
    }
}

} // verus!
