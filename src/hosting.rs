//! Statistics over a repository's issues and pull requests.

use vstd::prelude::*;
use vstd::seq_lib::{to_multiset_build, to_multiset_insert};
use crate::facts::{AgeStats, IssueStats};

verus! {

pub open spec fn ascending(s: Seq<u32>) -> bool {
    forall|i: int, j: int| 0 <= i < j < s.len() ==> s[i] <= s[j]
}

/// The rank, counted from one, of the `q`-th percentile among `n` values by
/// the nearest-rank method: `ceil(q * n / 100)`.
pub open spec fn rank(q: nat, n: nat) -> nat {
    (q * n + 99) / 100
}

pub open spec fn total(s: Seq<u32>, n: int) -> nat
    decreases n,
{
    if n <= 0 { 0 } else { total(s, n - 1) + s[n - 1] as nat }
}

/// The statistics of ages given in ascending order: the average rounded
/// down and the nearest-rank percentiles; all zero when there are none.
pub open spec fn stats_of(s: Seq<u32>) -> AgeStats {
    if s.len() == 0 {
        AgeStats { avg: 0, p50: 0, p75: 0, p90: 0, p95: 0 }
    } else {
        AgeStats {
            avg: (total(s, s.len() as int) / s.len()) as u32,
            p50: s[rank(50, s.len()) - 1],
            p75: s[rank(75, s.len()) - 1],
            p90: s[rank(90, s.len()) - 1],
            p95: s[rank(95, s.len()) - 1],
        }
    }
}

fn sort_ages(ages: &Vec<u32>) -> (r: Vec<u32>)
    ensures
        ascending(r@),
        r@.to_multiset() == ages@.to_multiset(),
        r@.len() == ages@.len(),
{
    let mut r: Vec<u32> = Vec::new();
    let mut t: usize = 0;
    assert(ages@.take(0) =~= r@);
    while t < ages.len()
        invariant
            t <= ages@.len(),
            ascending(r@),
            r@.len() == t,
            r@.to_multiset() == ages@.take(t as int).to_multiset(),
        decreases ages@.len() - t,
    {
        let a = ages[t];
        let mut k: usize = 0;
        while k < r.len() && r[k] <= a
            invariant
                k <= r@.len(),
                forall|x: int| 0 <= x < k ==> r@[x] <= a,
            decreases r@.len() - k,
        {
            k = k + 1;
        }
        let ghost before = r@;
        r.insert(k, a);
        proof {
            assert(r@ == before.insert(k as int, a));
            to_multiset_insert(before, k as int, a);
            to_multiset_build(ages@.take(t as int), a);
            assert(ages@.take(t + 1) =~= ages@.take(t as int).push(a));
            assert forall|i: int, j: int| 0 <= i < j < r@.len() implies r@[i] <= r@[j] by {
                if i < k && j > k {
                    assert(before[i] <= a);
                } else if i == k && j > k {
                    assert(before[k as int] > a);
                    assert(before[k as int] <= before[j - 1]);
                } else if i > k {
                    assert(before[i - 1] <= before[j - 1]);
                } else if j < k {
                    assert(before[i] <= before[j]);
                } else if j == k {
                    assert(before[i] <= a);
                }
            }
        }
        t = t + 1;
    }
    assert(ages@.take(ages@.len() as int) =~= ages@);
    r
}

fn at_rank(s: &Vec<u32>, q: u64) -> (r: u32)
    requires
        s@.len() > 0,
        s@.len() <= u32::MAX,
        1 <= q <= 100,
    ensures
        r == s@[rank(q as nat, s@.len()) - 1],
{
    let n = s.len() as u64;
    assert(q * n + 99 <= 100 * (u32::MAX as nat) + 99) by (nonlinear_arith)
        requires q <= 100, n <= u32::MAX;
    let k = (q * n + 99) / 100;
    assert(1 <= k <= n) by (nonlinear_arith)
        requires 1 <= q <= 100, 1 <= n, k == (q * n + 99) / 100;
    s[(k - 1) as usize]
}

/// Counts and closing-age statistics: `closed_ages` are the days each closed
/// issue (or pull request) stayed open, in any order.
pub fn issue_stats(open_count: u64, closed_ages: &Vec<u32>) -> (r: IssueStats)
    requires
        closed_ages@.len() <= u32::MAX,
    ensures
        r.open_count == open_count,
        r.closed_count == closed_ages@.len(),
        exists|s: Seq<u32>| ascending(s) && s.to_multiset() == closed_ages@.to_multiset() && s.len() == closed_ages@.len()
            && #[trigger] stats_of(s) == r.closed_age,
{
    let s = sort_ages(closed_ages);
    let n = s.len();
    let closed_age = if n == 0 {
        AgeStats { avg: 0, p50: 0, p75: 0, p90: 0, p95: 0 }
    } else {
        let mut sum: u64 = 0;
        let mut i: usize = 0;
        while i < n
            invariant
                n == s@.len(),
                n <= u32::MAX,
                i <= n,
                sum as nat == total(s@, i as int),
                sum <= i * (u32::MAX as nat),
            decreases n - i,
        {
            assert(sum + s@[i as int] <= (i + 1) * (u32::MAX as nat)) by (nonlinear_arith)
                requires sum <= i * (u32::MAX as nat), s@[i as int] <= u32::MAX;
            assert((i + 1) * (u32::MAX as nat) <= (u32::MAX as nat) * (u32::MAX as nat)) by (nonlinear_arith)
                requires i < n, n <= u32::MAX;
            sum = sum + s[i] as u64;
            i = i + 1;
        }
        let avg = sum / (n as u64);
        assert(avg <= u32::MAX) by (nonlinear_arith)
            requires avg == sum / (n as u64), sum <= n * (u32::MAX as nat), n >= 1;
        AgeStats {
            avg: avg as u32,
            p50: at_rank(&s, 50),
            p75: at_rank(&s, 75),
            p90: at_rank(&s, 90),
            p95: at_rank(&s, 95),
        }
    };
    let r = IssueStats { open_count, closed_count: n as u64, closed_age };
    assert(stats_of(s@) == r.closed_age);
    r
}

} // verus!
