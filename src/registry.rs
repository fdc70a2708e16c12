//! Aggregations over the rows of the registry's database dump.

use vstd::prelude::*;

verus! {

/// Adds, stopping at the largest value.
pub open spec fn sat_sum(a: u64, b: u64) -> u64 {
    if a + b > u64::MAX { u64::MAX } else { (a + b) as u64 }
}

/// Downloads of the first `n` rows that fall in `month`.
pub open spec fn month_total(rows: Seq<(i64, u64)>, n: int, month: i64) -> u64
    decreases n,
{
    if n <= 0 {
        0
    } else {
        let prev = month_total(rows, n - 1, month);
        if rows[n - 1].0 == month { sat_sum(prev, rows[n - 1].1) } else { prev }
    }
}

proof fn lemma_month_absent(rows: Seq<(i64, u64)>, n: int, month: i64)
    requires
        0 <= n <= rows.len(),
        forall|t: int| 0 <= t < n ==> (#[trigger] rows[t]).0 != month,
    ensures
        month_total(rows, n, month) == 0,
    decreases n,
{
    if n > 0 {
        lemma_month_absent(rows, n - 1, month);
    }
}

/// Months strictly ascending.
pub open spec fn ascending(s: Seq<(i64, u64)>) -> bool {
    forall|i: int, j: int| 0 <= i < j < s.len() ==> (#[trigger] s[i]).0 < (#[trigger] s[j]).0
}

pub open spec fn has_month(s: Seq<(i64, u64)>, m: i64) -> bool {
    exists|k: int| 0 <= k < s.len() && (#[trigger] s[k]).0 == m
}

/// The total recorded for a month, zero when absent.
pub open spec fn total_of(s: Seq<(i64, u64)>, m: i64) -> u64 {
    if has_month(s, m) {
        s[choose|k: int| 0 <= k < s.len() && (#[trigger] s[k]).0 == m].1
    } else {
        0
    }
}

proof fn lemma_total_at(s: Seq<(i64, u64)>, k: int)
    requires
        ascending(s),
        0 <= k < s.len(),
    ensures
        total_of(s, s[k].0) == s[k].1,
{
    assert(has_month(s, s[k].0));
    let j = choose|j: int| 0 <= j < s.len() && (#[trigger] s[j]).0 == s[k].0;
    if j < k {
        assert(s[j].0 < s[k].0);
    } else if j > k {
        assert(s[k].0 < s[j].0);
    }
}

/// Adds `count` downloads to `month`, keeping the months ascending.
fn add_row(r: &mut Vec<(i64, u64)>, month: i64, count: u64)
    requires
        ascending(old(r)@),
    ensures
        ascending(final(r)@),
        forall|m: i64| has_month(final(r)@, m) <==> (has_month(old(r)@, m) || m == month),
        forall|k: int| 0 <= k < final(r)@.len() ==> (#[trigger] final(r)@[k]).1 == if final(r)@[k].0 == month {
            sat_sum(total_of(old(r)@, month), count)
        } else {
            total_of(old(r)@, final(r)@[k].0)
        },
{
    let mut k: usize = 0;
    while k < r.len() && r[k].0 < month
        invariant
            k <= r@.len(),
            forall|x: int| 0 <= x < k ==> (#[trigger] r@[x]).0 < month,
        decreases r@.len() - k,
    {
        k = k + 1;
    }
    let ghost before = r@;
    if k < r.len() && r[k].0 == month {
        proof {
            lemma_total_at(before, k as int);
        }
        let total = r[k].1.saturating_add(count);
        r.set(k, (month, total));
        proof {
            assert forall|m: i64| has_month(r@, m) <==> (has_month(before, m) || m == month) by {
                if has_month(before, m) {
                    let y = choose|y: int| 0 <= y < before.len() && (#[trigger] before[y]).0 == m;
                    assert(r@[y].0 == m);
                }
                if has_month(r@, m) {
                    let y = choose|y: int| 0 <= y < r@.len() && (#[trigger] r@[y]).0 == m;
                    assert(before[y].0 == m);
                }
                if m == month {
                    assert(r@[k as int].0 == m);
                }
            }
            assert forall|x: int| 0 <= x < r@.len() implies (#[trigger] r@[x]).1 == if r@[x].0 == month {
                sat_sum(total_of(before, month), count)
            } else {
                total_of(before, r@[x].0)
            } by {
                if x != k {
                    lemma_total_at(before, x);
                    if x < k {
                        assert(before[x].0 < month);
                    } else {
                        assert(before[k as int].0 < before[x].0);
                    }
                }
            }
        }
    } else {
        proof {
            assert(!has_month(before, month)) by {
                if has_month(before, month) {
                    let y = choose|y: int| 0 <= y < before.len() && (#[trigger] before[y]).0 == month;
                    if y < k {
                        assert(before[y].0 < month);
                    } else if y > k {
                        assert(before[k as int].0 < before[y].0);
                    }
                }
            }
        }
        r.insert(k, (month, count));
        proof {
            assert forall|i: int, j: int| 0 <= i < j < r@.len() implies (#[trigger] r@[i]).0 < (#[trigger] r@[j]).0 by {
                if i < k && j > k {
                    assert(before[i].0 < month);
                } else if i > k {
                    assert(before[i - 1].0 < before[j - 1].0);
                } else if j < k {
                    assert(before[i].0 < before[j].0);
                }
            }
            assert forall|m: i64| has_month(r@, m) <==> (has_month(before, m) || m == month) by {
                if has_month(before, m) {
                    let y = choose|y: int| 0 <= y < before.len() && (#[trigger] before[y]).0 == m;
                    if y < k {
                        assert(r@[y].0 == m);
                    } else {
                        assert(r@[y + 1].0 == m);
                    }
                }
                if has_month(r@, m) {
                    let y = choose|y: int| 0 <= y < r@.len() && (#[trigger] r@[y]).0 == m;
                    if y < k {
                        assert(before[y].0 == m);
                    } else if y > k {
                        assert(before[y - 1].0 == m);
                    }
                }
                if m == month {
                    assert(r@[k as int].0 == m);
                }
            }
            assert forall|x: int| 0 <= x < r@.len() implies (#[trigger] r@[x]).1 == if r@[x].0 == month {
                sat_sum(total_of(before, month), count)
            } else {
                total_of(before, r@[x].0)
            } by {
                if x < k {
                    lemma_total_at(before, x);
                    assert(before[x].0 < month);
                } else if x > k {
                    lemma_total_at(before, x - 1);
                    assert(before[x - 1].0 != month);
                }
            }
        }
    }
}

/// Sums daily download rows by month. Each row is (month, downloads), the
/// month numbered as `year * 12 + month - 1`, in any order. The result has one
/// entry per month that occurs, in ascending order, with that month's total.
pub fn monthly_downloads(rows: &Vec<(i64, u64)>) -> (r: Vec<(i64, u64)>)
    ensures
        ascending(r@),
        forall|k: int| 0 <= k < r@.len() ==> (#[trigger] r@[k]).1 == month_total(rows@, rows@.len() as int, r@[k].0),
        forall|m: i64| has_month(r@, m) <==> exists|t: int| 0 <= t < rows@.len() && (#[trigger] rows@[t]).0 == m,
{
    let mut r: Vec<(i64, u64)> = Vec::new();
    let mut t: usize = 0;
    while t < rows.len()
        invariant
            t <= rows@.len(),
            ascending(r@),
            forall|k: int| 0 <= k < r@.len() ==> (#[trigger] r@[k]).1 == month_total(rows@, t as int, r@[k].0),
            forall|m: i64| has_month(r@, m) <==> exists|x: int| 0 <= x < t && (#[trigger] rows@[x]).0 == m,
        decreases rows@.len() - t,
    {
        let (month, count) = rows[t];
        let ghost before = r@;
        proof {
            if has_month(before, month) {
                let y = choose|y: int| 0 <= y < before.len() && (#[trigger] before[y]).0 == month;
                lemma_total_at(before, y);
            } else {
                assert forall|x: int| 0 <= x < t implies (#[trigger] rows@[x]).0 != month by {
                    if rows@[x].0 == month {
                        assert(exists|x: int| 0 <= x < t && (#[trigger] rows@[x]).0 == month);
                    }
                }
                lemma_month_absent(rows@, t as int, month);
            }
            assert(total_of(before, month) == month_total(rows@, t as int, month));
        }
        add_row(&mut r, month, count);
        proof {
            assert forall|k: int| 0 <= k < r@.len() implies (#[trigger] r@[k]).1 == month_total(rows@, t + 1, r@[k].0) by {
                let m = r@[k].0;
                if m != month {
                    assert(has_month(r@, m));
                    assert(has_month(before, m));
                    let y = choose|y: int| 0 <= y < before.len() && (#[trigger] before[y]).0 == m;
                    lemma_total_at(before, y);
                }
            }
            assert forall|m: i64| has_month(r@, m) <==> exists|x: int| 0 <= x < t + 1 && (#[trigger] rows@[x]).0 == m by {
                if exists|x: int| 0 <= x < t + 1 && (#[trigger] rows@[x]).0 == m {
                    let x = choose|x: int| 0 <= x < t + 1 && (#[trigger] rows@[x]).0 == m;
                    if x < t {
                        assert(exists|x: int| 0 <= x < t && (#[trigger] rows@[x]).0 == m);
                    }
                }
                if has_month(before, m) {
                    let x = choose|x: int| 0 <= x < t && (#[trigger] rows@[x]).0 == m;
                    assert(rows@[x].0 == m);
                }
                if m == month {
                    assert(rows@[t as int].0 == m);
                }
            }
        }
        t = t + 1;
    }
    r
}

} // verus!

verus! {

pub open spec fn strictly_ascending(s: Seq<u64>) -> bool {
    forall|i: int, j: int| 0 <= i < j < s.len() ==> (#[trigger] s[i]) < (#[trigger] s[j])
}

/// The crates that depend on `crate_id`, each once, in ascending order. Each
/// row is (id of the crate whose version declares the dependency, id of the
/// crate depended on).
pub fn dependents(rows: &Vec<(u64, u64)>, crate_id: u64) -> (r: Vec<u64>)
    ensures
        strictly_ascending(r@),
        forall|d: u64| r@.contains(d) <==> exists|t: int| 0 <= t < rows@.len() && #[trigger] rows@[t] == (d, crate_id),
{
    let mut r: Vec<u64> = Vec::new();
    let mut t: usize = 0;
    while t < rows.len()
        invariant
            t <= rows@.len(),
            strictly_ascending(r@),
            forall|d: u64| r@.contains(d) <==> exists|x: int| 0 <= x < t && #[trigger] rows@[x] == (d, crate_id),
        decreases rows@.len() - t,
    {
        let (d, target) = rows[t];
        let ghost before = r@;
        if target == crate_id {
            let mut k: usize = 0;
            while k < r.len() && r[k] < d
                invariant
                    k <= r@.len(),
                    forall|x: int| 0 <= x < k ==> r@[x] < d,
                decreases r@.len() - k,
            {
                k = k + 1;
            }
            if k == r.len() || r[k] != d {
                r.insert(k, d);
                proof {
                    assert forall|i: int, j: int| 0 <= i < j < r@.len() implies (#[trigger] r@[i]) < (#[trigger] r@[j]) by {
                        if i < k && j > k {
                            assert(before[i] < d);
                        } else if i == k && j > k {
                            assert(before[k as int] > d);
                            assert(before[k as int] <= before[j - 1]);
                        } else if i > k {
                            assert(before[i - 1] < before[j - 1]);
                        } else if j < k {
                            assert(before[i] < before[j]);
                        } else if j == k {
                            assert(before[i] < d);
                        }
                    }
                }
            }
            proof {
                assert forall|e: u64| r@.contains(e) <==> (before.contains(e) || e == d) by {
                    if r@.contains(e) {
                        let y = choose|y: int| 0 <= y < r@.len() && r@[y] == e;
                        if r@.len() > before.len() {
                            if y < k { assert(before[y] == e); } else if y > k { assert(before[y - 1] == e); }
                        } else {
                            assert(before[y] == e);
                        }
                    }
                    if before.contains(e) {
                        let y = choose|y: int| 0 <= y < before.len() && before[y] == e;
                        if r@.len() > before.len() {
                            if y < k { assert(r@[y] == e); } else { assert(r@[y + 1] == e); }
                        } else {
                            assert(r@[y] == e);
                        }
                    }
                    if e == d {
                        assert(r@[k as int] == e);
                    }
                }
            }
        }
        t = t + 1;
        proof {
            assert forall|e: u64| r@.contains(e) <==> exists|x: int| 0 <= x < t && #[trigger] rows@[x] == (e, crate_id) by {
                if exists|x: int| 0 <= x < t && #[trigger] rows@[x] == (e, crate_id) {
                    let x = choose|x: int| 0 <= x < t && #[trigger] rows@[x] == (e, crate_id);
                    if x < t - 1 {
                        assert(exists|x: int| 0 <= x < t - 1 && #[trigger] rows@[x] == (e, crate_id));
                    }
                }
                if before.contains(e) {
                    let x = choose|x: int| 0 <= x < t - 1 && #[trigger] rows@[x] == (e, crate_id);
                    assert(rows@[x] == (e, crate_id));
                }
                if target == crate_id && e == d {
                    assert(rows@[t - 1] == (e, crate_id));
                }
            }
        }
    }
    r
}

} // verus!
