//! Counting of outbound requests per named category.

use vstd::prelude::*;
use crate::text::{decimal, decimal_text, text_lt, text_less, text_eq, lemma_text_lt_irreflexive, lemma_text_lt_transitive, lemma_text_lt_total};

verus! {

/// Requests issued and completed under one name.
#[derive(Debug, Clone)]
pub struct RequestCounter {
    pub name: String,
    pub issued: u64,
    pub completed: u64,
}

/// What the progress indicator should show: `position` of `length`, and a message.
#[derive(Debug, Clone)]
pub struct ProgressUpdate {
    pub length: u64,
    pub position: u64,
    pub message: String,
}

/// Per-name counters of outbound requests, kept in name order.
#[derive(Debug, Clone)]
pub struct RequestTracker {
    counters: Vec<RequestCounter>,
}

/// Counters sorted strictly by name, none completed more than issued.
pub open spec fn well_formed(s: Seq<RequestCounter>) -> bool {
    &&& forall|i: int, j: int| 0 <= i < j < s.len() ==> text_lt(#[trigger] s[i].name@, #[trigger] s[j].name@)
    &&& forall|i: int| 0 <= i < s.len() ==> (#[trigger] s[i]).completed <= s[i].issued
}

/// The counters as a map from name to (issued, completed).
pub open spec fn counts_of(s: Seq<RequestCounter>) -> Map<Seq<char>, (u64, u64)> {
    Map::new(
        |n: Seq<char>| exists|i: int| 0 <= i < s.len() && (#[trigger] s[i]).name@ == n,
        |n: Seq<char>| (s[index_of(s, n)].issued, s[index_of(s, n)].completed),
    )
}

/// An index holding the name, if any does.
pub open spec fn index_of(s: Seq<RequestCounter>, n: Seq<char>) -> int {
    choose|i: int| 0 <= i < s.len() && (#[trigger] s[i]).name@ == n
}

/// Adds, stopping at the largest value.
pub open spec fn sat_add(a: u64, b: u64) -> u64 {
    if a + b > u64::MAX { u64::MAX } else { (a + b) as u64 }
}

/// Sum of the issued or the completed counts of the first `n` counters.
pub open spec fn total_upto(s: Seq<RequestCounter>, n: int, issued: bool) -> u64
    decreases n,
{
    if n <= 0 {
        0
    } else {
        let c = s[n - 1];
        if c.issued == 0 {
            total_upto(s, n - 1, issued)
        } else {
            sat_add(total_upto(s, n - 1, issued), if issued { c.issued } else { c.completed })
        }
    }
}

/// `completed/issued name` for each of the first `n` counters that has issued
/// requests, joined by commas.
pub open spec fn message_upto(s: Seq<RequestCounter>, n: int) -> Seq<char>
    decreases n,
{
    if n <= 0 {
        Seq::empty()
    } else {
        let c = s[n - 1];
        let prev = message_upto(s, n - 1);
        if c.issued == 0 {
            prev
        } else {
            let part = decimal_text(c.completed as nat) + "/"@ + decimal_text(c.issued as nat) + " "@ + c.name@;
            if prev.len() == 0 { part } else { prev + ", "@ + part }
        }
    }
}

pub open spec fn update_view(r: Option<ProgressUpdate>) -> Option<(u64, u64, Seq<char>)> {
    match r {
        Some(u) => Some((u.length, u.position, u.message@)),
        None => None,
    }
}

/// The update shown for a set of counters, or `None` while nothing was issued.
pub open spec fn progress_of(s: Seq<RequestCounter>) -> Option<(u64, u64, Seq<char>)> {
    let issued = total_upto(s, s.len() as int, true);
    if issued == 0 {
        None
    } else {
        Some((issued, total_upto(s, s.len() as int, false), message_upto(s, s.len() as int)))
    }
}

proof fn lemma_unique(s: Seq<RequestCounter>, i: int, j: int)
    requires
        well_formed(s),
        0 <= i < s.len(),
        0 <= j < s.len(),
        s[i].name@ == s[j].name@,
    ensures
        i == j,
{
    if i < j {
        assert(text_lt(s[i].name@, s[j].name@));
        lemma_text_lt_irreflexive(s[i].name@);
    } else if j < i {
        assert(text_lt(s[j].name@, s[i].name@));
        lemma_text_lt_irreflexive(s[i].name@);
    }
}

proof fn lemma_counts_at(s: Seq<RequestCounter>, i: int)
    requires
        well_formed(s),
        0 <= i < s.len(),
    ensures
        counts_of(s).dom().contains(s[i].name@),
        counts_of(s)[s[i].name@] == (s[i].issued, s[i].completed),
{
    let n = s[i].name@;
    assert(counts_of(s).dom().contains(n));
    let k = index_of(s, n);
    assert(0 <= k < s.len() && s[k].name@ == n);
    lemma_unique(s, i, k);
}

proof fn lemma_counts_replaced(s: Seq<RequestCounter>, k: int, c: RequestCounter)
    requires
        well_formed(s),
        0 <= k < s.len(),
        c.name@ == s[k].name@,
        c.completed <= c.issued,
    ensures
        well_formed(s.update(k, c)),
        counts_of(s.update(k, c)) == counts_of(s).insert(c.name@, (c.issued, c.completed)),
{
    let t = s.update(k, c);
    assert forall|i: int, j: int| 0 <= i < j < t.len() implies text_lt(#[trigger] t[i].name@, #[trigger] t[j].name@) by {
        assert(text_lt(s[i].name@, s[j].name@));
    }
    assert forall|n: Seq<char>| #[trigger] counts_of(t).dom().contains(n) <==> counts_of(s).insert(c.name@, (c.issued, c.completed)).dom().contains(n) by {
        if counts_of(s).dom().contains(n) {
            let i = choose|i: int| 0 <= i < s.len() && (#[trigger] s[i]).name@ == n;
            assert(t[i].name@ == n);
        }
        if counts_of(t).dom().contains(n) {
            let i = choose|i: int| 0 <= i < t.len() && (#[trigger] t[i]).name@ == n;
            assert(s[i].name@ == n);
        }
    }
    assert forall|n: Seq<char>| counts_of(t).dom().contains(n) implies #[trigger] counts_of(t)[n] == counts_of(s).insert(c.name@, (c.issued, c.completed))[n] by {
        let i = choose|i: int| 0 <= i < t.len() && (#[trigger] t[i]).name@ == n;
        lemma_counts_at(t, i);
        if i != k {
            lemma_counts_at(s, i);
            if n == c.name@ {
                lemma_unique(s, i, k);
            }
        }
    }
    assert(counts_of(t) =~= counts_of(s).insert(c.name@, (c.issued, c.completed)));
}

proof fn lemma_counts_inserted(s: Seq<RequestCounter>, k: int, c: RequestCounter)
    requires
        well_formed(s),
        0 <= k <= s.len(),
        forall|i: int| 0 <= i < k ==> text_lt(#[trigger] s[i].name@, c.name@),
        forall|i: int| k <= i < s.len() ==> text_lt(c.name@, #[trigger] s[i].name@),
        c.completed <= c.issued,
    ensures
        well_formed(s.insert(k, c)),
        counts_of(s.insert(k, c)) == counts_of(s).insert(c.name@, (c.issued, c.completed)),
{
    let t = s.insert(k, c);
    assert forall|i: int, j: int| 0 <= i < j < t.len() implies text_lt(#[trigger] t[i].name@, #[trigger] t[j].name@) by {
        if i < k && j > k {
            lemma_text_lt_transitive(s[i].name@, c.name@, s[j - 1].name@);
        } else if i > k {
            assert(text_lt(s[i - 1].name@, s[j - 1].name@));
        } else if j < k {
            assert(text_lt(s[i].name@, s[j].name@));
        }
    }
    assert forall|n: Seq<char>| #[trigger] counts_of(t).dom().contains(n) <==> counts_of(s).insert(c.name@, (c.issued, c.completed)).dom().contains(n) by {
        if counts_of(s).dom().contains(n) {
            let i = choose|i: int| 0 <= i < s.len() && (#[trigger] s[i]).name@ == n;
            if i < k {
                assert(t[i].name@ == n);
            } else {
                assert(t[i + 1].name@ == n);
            }
        }
        if n == c.name@ {
            assert(t[k].name@ == n);
        }
        if counts_of(t).dom().contains(n) {
            let i = choose|i: int| 0 <= i < t.len() && (#[trigger] t[i]).name@ == n;
            if i < k {
                assert(s[i].name@ == n);
            } else if i > k {
                assert(s[i - 1].name@ == n);
            }
        }
    }
    assert forall|n: Seq<char>| counts_of(t).dom().contains(n) implies #[trigger] counts_of(t)[n] == counts_of(s).insert(c.name@, (c.issued, c.completed))[n] by {
        let i = choose|i: int| 0 <= i < t.len() && (#[trigger] t[i]).name@ == n;
        lemma_counts_at(t, i);
        if i < k {
            lemma_counts_at(s, i);
            lemma_text_lt_irreflexive(c.name@);
        } else if i > k {
            lemma_counts_at(s, i - 1);
            lemma_text_lt_irreflexive(c.name@);
        }
    }
    assert(counts_of(t) =~= counts_of(s).insert(c.name@, (c.issued, c.completed)));
}

impl RequestTracker {
    pub closed spec fn entries(&self) -> Seq<RequestCounter> {
        self.counters@
    }

    /// Issued and completed counts by name.
    pub open spec fn counts(&self) -> Map<Seq<char>, (u64, u64)> {
        counts_of(self.entries())
    }

    pub open spec fn wf(&self) -> bool {
        well_formed(self.entries())
    }

    /// The (issued, completed) counts under a name, zero for a name never seen.
    pub open spec fn count(&self, name: Seq<char>) -> (u64, u64) {
        if self.counts().dom().contains(name) { self.counts()[name] } else { (0, 0) }
    }

    /// A tracker with no counters.
    pub fn new() -> (r: RequestTracker)
        ensures
            r.wf(),
            r.counts() == Map::<Seq<char>, (u64, u64)>::empty(),
    {
        let r = RequestTracker { counters: Vec::new() };
        assert(r.counts() =~= Map::<Seq<char>, (u64, u64)>::empty());
        r
    }

    /// Sets the counts of a name, inserting it in name order if new.
    fn put(&mut self, name: &str, issued: u64, completed: u64)
        requires
            old(self).wf(),
            completed <= issued,
        ensures
            final(self).wf(),
            final(self).counts() == old(self).counts().insert(name@, (issued, completed)),
    {
        let ghost s = self.counters@;
        let c = RequestCounter { name: String::from_str(name), issued, completed };
        let mut k: usize = 0;
        while k < self.counters.len()
            invariant
                s == self.counters@,
                well_formed(s),
                k <= s.len(),
                forall|i: int| 0 <= i < k ==> text_lt(#[trigger] s[i].name@, name@),
                c.name@ == name@,
                old(self).counters@ == s,
                c.issued == issued,
                c.completed == completed,
                completed <= issued,
            decreases s.len() - k,
        {
            if text_eq(self.counters[k].name.as_str(), name) {
                proof {
                    lemma_counts_replaced(s, k as int, c);
                }
                self.counters.set(k, c);
                return;
            }
            if !text_less(self.counters[k].name.as_str(), name) {
                proof {
                    lemma_text_lt_total(s[k as int].name@, name@);
                    assert forall|i: int| k <= i < s.len() implies text_lt(name@, #[trigger] s[i].name@) by {
                        if i > k {
                            assert(text_lt(s[k as int].name@, s[i].name@));
                            lemma_text_lt_transitive(name@, s[k as int].name@, s[i].name@);
                        }
                    }
                    lemma_counts_inserted(s, k as int, c);
                }
                self.counters.insert(k, c);
                return;
            }
            k = k + 1;
        }
        proof {
            lemma_counts_inserted(s, k as int, c);
        }
        self.counters.insert(k, c);
    }

    /// The counts under a name.
    pub fn get_counter(&self, name: &str) -> (r: (u64, u64))
        requires
            self.wf(),
        ensures
            r == self.count(name@),
    {
        let ghost s = self.counters@;
        let mut k: usize = 0;
        while k < self.counters.len()
            invariant
                s == self.counters@,
                well_formed(s),
                k <= s.len(),
                forall|i: int| 0 <= i < k ==> (#[trigger] s[i]).name@ != name@,
            decreases s.len() - k,
        {
            if text_eq(self.counters[k].name.as_str(), name) {
                proof {
                    lemma_counts_at(s, k as int);
                }
                return (self.counters[k].issued, self.counters[k].completed);
            }
            k = k + 1;
        }
        (0, 0)
    }

    /// Records one more issued request under `name`.
    pub fn add_request(&mut self, name: &str) -> (r: Option<ProgressUpdate>)
        requires
            old(self).wf(),
        ensures
            final(self).wf(),
            counts_grew(*old(self), *final(self)),
            final(self).counts() == old(self).counts().insert(name@,
                (sat_add(old(self).count(name@).0, 1), old(self).count(name@).1)),
            update_view(r) == progress_of(final(self).entries()),
    {
        let (issued, completed) = self.get_counter(name);
        let ghost before = *self;
        self.put(name, issued.saturating_add(1), completed);
        proof {
            lemma_counts_monotonic(before, *self, name@, (sat_add(issued, 1)), completed);
        }
        self.update_progress()
    }

    /// Records `count` more issued requests under `name`; nothing happens when `count` is zero.
    pub fn add_many_requests(&mut self, name: &str, count: u64) -> (r: Option<ProgressUpdate>)
        requires
            old(self).wf(),
        ensures
            final(self).wf(),
            counts_grew(*old(self), *final(self)),
            count == 0 ==> final(self).counts() == old(self).counts() && r is None,
            count > 0 ==> final(self).counts() == old(self).counts().insert(name@,
                (sat_add(old(self).count(name@).0, count), old(self).count(name@).1)),
            count > 0 ==> update_view(r) == progress_of(final(self).entries()),
    {
        if count == 0 {
            return None;
        }
        let (issued, completed) = self.get_counter(name);
        let ghost before = *self;
        self.put(name, issued.saturating_add(count), completed);
        proof {
            lemma_counts_monotonic(before, *self, name@, sat_add(issued, count), completed);
        }
        self.update_progress()
    }

    /// Records one completed request under `name`. A completion beyond the
    /// issued count is not recorded, so completed never exceeds issued.
    pub fn complete_request(&mut self, name: &str) -> (r: Option<ProgressUpdate>)
        requires
            old(self).wf(),
        ensures
            final(self).wf(),
            counts_grew(*old(self), *final(self)),
            final(self).counts() == old(self).counts().insert(name@, (old(self).count(name@).0,
                if old(self).count(name@).1 < old(self).count(name@).0 { (old(self).count(name@).1 + 1) as u64 } else { old(self).count(name@).1 })),
            update_view(r) == progress_of(final(self).entries()),
    {
        let (issued, completed) = self.get_counter(name);
        proof {
            if self.counts().dom().contains(name@) {
                let i = choose|i: int| 0 <= i < self.entries().len() && (#[trigger] self.entries()[i]).name@ == name@;
                lemma_counts_at(self.entries(), i);
            }
        }
        let next = if completed < issued { completed + 1 } else { completed };
        let ghost before = *self;
        self.put(name, issued, next);
        proof {
            lemma_counts_monotonic(before, *self, name@, issued, next);
        }
        self.update_progress()
    }

    /// The totals and the message for the progress indicator, or `None`
    /// while nothing has been issued.
    pub fn update_progress(&self) -> (r: Option<ProgressUpdate>)
        ensures
            update_view(r) == progress_of(self.entries()),
    {
        let ghost s = self.counters@;
        let mut issued: u64 = 0;
        let mut completed: u64 = 0;
        let mut message = String::new();
        let mut i: usize = 0;
        while i < self.counters.len()
            invariant
                s == self.counters@,
                i <= s.len(),
                issued == total_upto(s, i as int, true),
                completed == total_upto(s, i as int, false),
                message@ == message_upto(s, i as int),
            decreases s.len() - i,
        {
            let c = &self.counters[i];
            if c.issued > 0 {
                issued = issued.saturating_add(c.issued);
                completed = completed.saturating_add(c.completed);
                if message.unicode_len() > 0 {
                    message.append(", ");
                }
                let done = decimal(c.completed);
                let all = decimal(c.issued);
                message.append(done.as_str());
                message.append("/");
                message.append(all.as_str());
                message.append(" ");
                message.append(c.name.as_str());
            }
            i = i + 1;
        }
        if issued == 0 {
            None
        } else {
            Some(ProgressUpdate { length: issued, position: completed, message })
        }
    }
}

/// Completed never exceeds issued under any name, in every reachable state.
pub proof fn lemma_completed_within_issued(t: RequestTracker, name: Seq<char>)
    requires
        t.wf(),
    ensures
        t.count(name).1 <= t.count(name).0,
{
    if t.counts().dom().contains(name) {
        let i = choose|i: int| 0 <= i < t.entries().len() && (#[trigger] t.entries()[i]).name@ == name;
        lemma_counts_at(t.entries(), i);
    }
}

/// No count under any name is lower in `after` than in `before`.
pub open spec fn counts_grew(before: RequestTracker, after: RequestTracker) -> bool {
    forall|n: Seq<char>| #[trigger] after.count(n).0 >= before.count(n).0 && after.count(n).1 >= before.count(n).1
}

/// Raising the counts of one name leaves every count at least where it was.
proof fn lemma_counts_monotonic(before: RequestTracker, after: RequestTracker, name: Seq<char>, issued: u64, completed: u64)
    requires
        after.counts() == before.counts().insert(name, (issued, completed)),
        issued >= before.count(name).0,
        completed >= before.count(name).1,
    ensures
        counts_grew(before, after),
{
}

} // verus!
