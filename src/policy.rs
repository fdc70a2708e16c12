//! Typed policies, license evaluation, and the detection of unreachable policies.

use vstd::prelude::*;
use crate::dependency::{DependencyType, DependencyTypes};
use crate::list::{list_items, split_list};
use crate::metric::Metric;
use crate::text::{decimal, decimal_text, lower_of, lowercase, occurs_in, text_contains, text_eq};

verus! {

// Points are counted in hundredths of a point: 250 stands for 2.5 points.

/// Matches when the observed count is at least `min_count`.
#[derive(Debug, Clone, Copy)]
pub struct MinCountPolicy {
    pub dependency_types: DependencyTypes,
    pub min_count: u32,
    pub points: u32,
}

/// Matches when the observed count is at most `max_count`.
#[derive(Debug, Clone, Copy)]
pub struct MaxCountPolicy {
    pub dependency_types: DependencyTypes,
    pub max_count: u32,
    pub points: u32,
}

/// Matches when at least `min_count` events fall within the last `max_days` days.
#[derive(Debug, Clone, Copy)]
pub struct AgedCountPolicy {
    pub dependency_types: DependencyTypes,
    pub min_count: u32,
    pub max_days: u32,
    pub points: u32,
}

/// Matches when the crate is at least `min_days` days old.
#[derive(Debug, Clone, Copy)]
pub struct AgePolicy {
    pub dependency_types: DependencyTypes,
    pub min_days: u32,
    pub points: u32,
}

/// Matches when the major version is at least `min_major_version`.
#[derive(Debug, Clone, Copy)]
pub struct VersionPolicy {
    pub dependency_types: DependencyTypes,
    pub min_major_version: u32,
    pub points: u32,
}

/// Matches when the observed flag equals `expected`.
#[derive(Debug, Clone, Copy)]
pub struct BooleanPolicy {
    pub dependency_types: DependencyTypes,
    pub expected: bool,
    pub points: u32,
}

/// Matches when the observed percentage is at least `min_percentage`.
#[derive(Debug, Clone, Copy)]
pub struct PercentagePolicy {
    pub dependency_types: DependencyTypes,
    pub min_percentage: u8,
    pub points: u32,
}

/// Matches when every age statistic is within its bound, in days.
#[derive(Debug, Clone, Copy)]
pub struct ResponsivenessPolicy {
    pub dependency_types: DependencyTypes,
    pub max_average_days: u32,
    pub max_p50_days: u32,
    pub max_p75_days: u32,
    pub max_p90_days: u32,
    pub max_p95_days: u32,
    pub points: u32,
}

/// Matches when the license expression is satisfied by the allowed licenses.
#[derive(Debug, Clone)]
pub struct LicensePolicy {
    pub dependency_types: DependencyTypes,
    pub licenses: Vec<String>,
    pub points: u32,
}

/// Requirements of a parsed SPDX expression: for each, the license
/// identifier, or `None` where the license is not an SPDX identifier.
/// `None` overall when the text is not a valid expression.
pub uninterp spec fn spdx_requirements(expr: Seq<char>) -> Option<Seq<Option<Seq<char>>>>;

/// Relies on spdx's `Expression::parse` (strict mode) and
/// `Expression::requirements`, mapping each requirement to the name of its
/// license identifier.
#[verifier::external_body]
fn requirement_ids(expr: &str) -> (r: Option<Vec<Option<String>>>)
    ensures
        r is None <==> spdx_requirements(expr@) is None,
        r is Some ==> ({
            let v = r->Some_0;
            let s = spdx_requirements(expr@)->Some_0;
            v@.len() == s.len() && forall|i: int|
                0 <= i < s.len() ==> (#[trigger] v@[i] is Some) == (s[i] is Some) && (v@[i] is Some
                    ==> v@[i]->Some_0@ == s[i]->Some_0)
        }),
{
    spdx::Expression::parse(expr).ok().map(
        |e| e.requirements().map(|r| r.req.license.id().map(|id| id.name.to_string())).collect(),
    )
}

/// Some allowed license occurs in `text` (both compared in lower case).
pub open spec fn any_allowed_in(allowed: Seq<Seq<char>>, text: Seq<char>) -> bool {
    exists|k: int| 0 <= k < allowed.len() && occurs_in(lower_of(text), lower_of(#[trigger] allowed[k]))
}

/// A license identifier is allowed when it and an allowed name, both in lower
/// case, contain one another in one direction or the other.
pub open spec fn id_allowed(allowed: Seq<Seq<char>>, id: Seq<char>) -> bool {
    exists|k: int|
        0 <= k < allowed.len() && (occurs_in(lower_of(id), lower_of(#[trigger] allowed[k]))
            || occurs_in(lower_of(allowed[k]), lower_of(id)))
}

pub open spec fn req_allowed(allowed: Seq<Seq<char>>, req: Option<Seq<char>>) -> bool {
    match req {
        Some(id) => id_allowed(allowed, id),
        None => false,
    }
}

/// Whether a license expression is acceptable under the allowed names: an
/// unparseable text is matched by substring; otherwise an expression that
/// contains ` AND ` needs every requirement allowed, and any other needs one.
pub open spec fn license_accepted(allowed: Seq<Seq<char>>, expr: Seq<char>) -> bool {
    match spdx_requirements(expr) {
        None => any_allowed_in(allowed, expr),
        Some(reqs) => {
            let some_ok = exists|i: int| 0 <= i < reqs.len() && req_allowed(allowed, #[trigger] reqs[i]);
            let all_ok = forall|i: int| 0 <= i < reqs.len() ==> req_allowed(allowed, #[trigger] reqs[i]);
            if occurs_in(expr, " AND "@) {
                some_ok && all_ok
            } else {
                some_ok
            }
        },
    }
}

impl LicensePolicy {
    /// Reads a comma-separated list of license names.
    pub fn parse_licenses(text: &str) -> (r: Vec<String>)
        ensures
            r@.map_values(|x: String| x@) == list_items(text@),
    {
        split_list(text)
    }

    pub open spec fn allowed(&self) -> Seq<Seq<char>> {
        self.licenses@.map_values(|s: String| s@)
    }

    /// Whether the SPDX license expression is satisfied by this policy's licenses.
    pub fn check_license(&self, spdx_license_expr: &str) -> (r: bool)
        ensures
            r == license_accepted(self.allowed(), spdx_license_expr@),
    {
        assert(self.allowed().len() == self.licenses@.len());
        match requirement_ids(spdx_license_expr) {
            None => {
                let lower = lowercase(spdx_license_expr);
                let mut k: usize = 0;
                while k < self.licenses.len()
                    invariant
                        lower@ == lower_of(spdx_license_expr@),
                        spdx_requirements(spdx_license_expr@) is None,
                        self.allowed().len() == self.licenses@.len(),
                        k <= self.licenses.len(),
                        forall|t: int| 0 <= t < k ==> !occurs_in(lower_of(spdx_license_expr@), lower_of(#[trigger] self.allowed()[t])),
                    decreases self.licenses.len() - k,
                {
                    let a = lowercase(self.licenses[k].as_str());
                    if text_contains(lower.as_str(), a.as_str()) {
                        assert(occurs_in(lower_of(spdx_license_expr@), lower_of(self.allowed()[k as int])));
                        assert(any_allowed_in(self.allowed(), spdx_license_expr@));
                        return true;
                    }
                    k = k + 1;
                }
                false
            },
            Some(reqs) => {
                let ghost s = spdx_requirements(spdx_license_expr@)->Some_0;
                if reqs.len() == 0 {
                    return false;
                }
                let mut has_allowed = false;
                let mut has_disallowed = false;
                let mut i: usize = 0;
                while i < reqs.len()
                    invariant
                        reqs@.len() == s.len(),
                        spdx_requirements(spdx_license_expr@) == Some(s),
                        forall|t: int| 0 <= t < s.len() ==> (#[trigger] reqs@[t] is Some) == (s[t] is Some) && (reqs@[t] is Some
                            ==> reqs@[t]->Some_0@ == s[t]->Some_0),
                        i <= reqs.len(),
                        has_allowed == exists|t: int| 0 <= t < i && req_allowed(self.allowed(), #[trigger] s[t]),
                        has_disallowed == exists|t: int| 0 <= t < i && !req_allowed(self.allowed(), #[trigger] s[t]),
                    decreases reqs.len() - i,
                {
                    let ok = match &reqs[i] {
                        None => false,
                        Some(id) => self.id_allowed(id.as_str()),
                    };
                    assert(ok == req_allowed(self.allowed(), s[i as int]));
                    if ok {
                        has_allowed = true;
                    } else {
                        has_disallowed = true;
                    }
                    i = i + 1;
                }
                if text_contains(spdx_license_expr, " AND ") {
                    !has_disallowed && has_allowed
                } else {
                    has_allowed
                }
            },
        }
    }

    fn id_allowed(&self, id: &str) -> (r: bool)
        ensures
            r == id_allowed(self.allowed(), id@),
    {
        assert(self.allowed().len() == self.licenses@.len());
        let lid = lowercase(id);
        let mut k: usize = 0;
        while k < self.licenses.len()
            invariant
                lid@ == lower_of(id@),
                self.allowed().len() == self.licenses@.len(),
                k <= self.licenses.len(),
                forall|t: int| 0 <= t < k ==> !(occurs_in(lower_of(id@), lower_of(#[trigger] self.allowed()[t]))
                    || occurs_in(lower_of(self.allowed()[t]), lower_of(id@))),
            decreases self.licenses.len() - k,
        {
            let a = lowercase(self.licenses[k].as_str());
            if text_contains(lid.as_str(), a.as_str()) || text_contains(a.as_str(), lid.as_str()) {
                assert(occurs_in(lower_of(id@), lower_of(self.allowed()[k as int])) || occurs_in(lower_of(self.allowed()[k as int]), lower_of(id@)));
                return true;
            }
            k = k + 1;
        }
        false
    }
}

} // verus!

verus! {

/// The shape of a policy, which decides what it compares.
#[derive(Debug, Clone, Copy, PartialEq, Eq, Structural)]
pub enum PolicyKind {
    MinCount,
    MaxCount,
    AgedCount,
    Age,
    Version,
    Boolean,
    Percentage,
    License,
    Responsiveness,
}

/// One configured policy.
#[derive(Debug, Clone)]
pub enum Policy {
    MinCount(MinCountPolicy),
    MaxCount(MaxCountPolicy),
    AgedCount(AgedCountPolicy),
    Age(AgePolicy),
    Version(VersionPolicy),
    Boolean(BooleanPolicy),
    Percentage(PercentagePolicy),
    License(LicensePolicy),
    Responsiveness(ResponsivenessPolicy),
}

impl Policy {
    pub open spec fn kind_of(&self) -> PolicyKind {
        match self {
            Policy::MinCount(_) => PolicyKind::MinCount,
            Policy::MaxCount(_) => PolicyKind::MaxCount,
            Policy::AgedCount(_) => PolicyKind::AgedCount,
            Policy::Age(_) => PolicyKind::Age,
            Policy::Version(_) => PolicyKind::Version,
            Policy::Boolean(_) => PolicyKind::Boolean,
            Policy::Percentage(_) => PolicyKind::Percentage,
            Policy::License(_) => PolicyKind::License,
            Policy::Responsiveness(_) => PolicyKind::Responsiveness,
        }
    }

    pub open spec fn types(&self) -> DependencyTypes {
        match self {
            Policy::MinCount(p) => p.dependency_types,
            Policy::MaxCount(p) => p.dependency_types,
            Policy::AgedCount(p) => p.dependency_types,
            Policy::Age(p) => p.dependency_types,
            Policy::Version(p) => p.dependency_types,
            Policy::Boolean(p) => p.dependency_types,
            Policy::Percentage(p) => p.dependency_types,
            Policy::License(p) => p.dependency_types,
            Policy::Responsiveness(p) => p.dependency_types,
        }
    }

    pub open spec fn points_of(&self) -> u32 {
        match self {
            Policy::MinCount(p) => p.points,
            Policy::MaxCount(p) => p.points,
            Policy::AgedCount(p) => p.points,
            Policy::Age(p) => p.points,
            Policy::Version(p) => p.points,
            Policy::Boolean(p) => p.points,
            Policy::Percentage(p) => p.points,
            Policy::License(p) => p.points,
            Policy::Responsiveness(p) => p.points,
        }
    }

    pub fn kind(&self) -> (r: PolicyKind)
        ensures
            r == self.kind_of(),
    {
        match self {
            Policy::MinCount(_) => PolicyKind::MinCount,
            Policy::MaxCount(_) => PolicyKind::MaxCount,
            Policy::AgedCount(_) => PolicyKind::AgedCount,
            Policy::Age(_) => PolicyKind::Age,
            Policy::Version(_) => PolicyKind::Version,
            Policy::Boolean(_) => PolicyKind::Boolean,
            Policy::Percentage(_) => PolicyKind::Percentage,
            Policy::License(_) => PolicyKind::License,
            Policy::Responsiveness(_) => PolicyKind::Responsiveness,
        }
    }

    /// The dependency types this policy applies to.
    pub fn dependency_types(&self) -> (r: DependencyTypes)
        ensures
            r == self.types(),
    {
        match self {
            Policy::MinCount(p) => p.dependency_types,
            Policy::MaxCount(p) => p.dependency_types,
            Policy::AgedCount(p) => p.dependency_types,
            Policy::Age(p) => p.dependency_types,
            Policy::Version(p) => p.dependency_types,
            Policy::Boolean(p) => p.dependency_types,
            Policy::Percentage(p) => p.dependency_types,
            Policy::License(p) => p.dependency_types,
            Policy::Responsiveness(p) => p.dependency_types,
        }
    }

    /// The points awarded when this policy matches, in hundredths.
    pub fn points(&self) -> (r: u32)
        ensures
            r == self.points_of(),
    {
        match self {
            Policy::MinCount(p) => p.points,
            Policy::MaxCount(p) => p.points,
            Policy::AgedCount(p) => p.points,
            Policy::Age(p) => p.points,
            Policy::Version(p) => p.points,
            Policy::Boolean(p) => p.points,
            Policy::Percentage(p) => p.points,
            Policy::License(p) => p.points,
            Policy::Responsiveness(p) => p.points,
        }
    }
}

} // verus!

verus! {

/// The policy `a` makes `b` unreachable when both apply: whatever `b` accepts,
/// `a`, tried first, accepts too. Policies of different kinds never do.
pub open spec fn dominates(a: Policy, b: Policy) -> bool {
    match (a, b) {
        (Policy::MinCount(x), Policy::MinCount(y)) => x.min_count <= y.min_count,
        (Policy::MaxCount(x), Policy::MaxCount(y)) => x.max_count >= y.max_count,
        (Policy::AgedCount(x), Policy::AgedCount(y)) => x.min_count <= y.min_count && x.max_days >= y.max_days,
        (Policy::Age(x), Policy::Age(y)) => x.min_days <= y.min_days,
        (Policy::Version(x), Policy::Version(y)) => x.min_major_version <= y.min_major_version,
        (Policy::Boolean(x), Policy::Boolean(y)) => x.expected == y.expected,
        (Policy::Percentage(x), Policy::Percentage(y)) => x.min_percentage <= y.min_percentage,
        (Policy::License(x), Policy::License(y)) => exists|i: int, j: int|
            0 <= i < x.licenses@.len() && 0 <= j < y.licenses@.len() && #[trigger] x.licenses@[i]@ == #[trigger] y.licenses@[j]@,
        (Policy::Responsiveness(x), Policy::Responsiveness(y)) => x.max_average_days >= y.max_average_days
            && x.max_p50_days >= y.max_p50_days && x.max_p75_days >= y.max_p75_days
            && x.max_p90_days >= y.max_p90_days && x.max_p95_days >= y.max_p95_days,
        _ => false,
    }
}

fn shares_license(x: &LicensePolicy, y: &LicensePolicy) -> (r: bool)
    ensures
        r == exists|i: int, j: int|
            0 <= i < x.licenses@.len() && 0 <= j < y.licenses@.len() && #[trigger] x.licenses@[i]@ == #[trigger] y.licenses@[j]@,
{
    let mut i: usize = 0;
    while i < x.licenses.len()
        invariant
            i <= x.licenses.len(),
            forall|a: int, b: int| 0 <= a < i && 0 <= b < y.licenses@.len() ==> #[trigger] x.licenses@[a]@ != #[trigger] y.licenses@[b]@,
        decreases x.licenses.len() - i,
    {
        let mut j: usize = 0;
        while j < y.licenses.len()
            invariant
                i < x.licenses.len(),
                j <= y.licenses.len(),
                forall|a: int, b: int| 0 <= a < i && 0 <= b < y.licenses@.len() ==> #[trigger] x.licenses@[a]@ != #[trigger] y.licenses@[b]@,
                forall|b: int| 0 <= b < j ==> x.licenses@[i as int]@ != #[trigger] y.licenses@[b]@,
            decreases y.licenses.len() - j,
        {
            if text_eq(x.licenses[i].as_str(), y.licenses[j].as_str()) {
                return true;
            }
            j = j + 1;
        }
        i = i + 1;
    }
    false
}

/// Whether `a` dominates `b`.
pub fn policy_dominates(a: &Policy, b: &Policy) -> (r: bool)
    ensures
        r == dominates(*a, *b),
{
    match (a, b) {
        (Policy::MinCount(x), Policy::MinCount(y)) => x.min_count <= y.min_count,
        (Policy::MaxCount(x), Policy::MaxCount(y)) => x.max_count >= y.max_count,
        (Policy::AgedCount(x), Policy::AgedCount(y)) => x.min_count <= y.min_count && x.max_days >= y.max_days,
        (Policy::Age(x), Policy::Age(y)) => x.min_days <= y.min_days,
        (Policy::Version(x), Policy::Version(y)) => x.min_major_version <= y.min_major_version,
        (Policy::Boolean(x), Policy::Boolean(y)) => x.expected == y.expected,
        (Policy::Percentage(x), Policy::Percentage(y)) => x.min_percentage <= y.min_percentage,
        (Policy::License(x), Policy::License(y)) => shares_license(x, y),
        (Policy::Responsiveness(x), Policy::Responsiveness(y)) => x.max_average_days >= y.max_average_days
            && x.max_p50_days >= y.max_p50_days && x.max_p75_days >= y.max_p75_days
            && x.max_p90_days >= y.max_p90_days && x.max_p95_days >= y.max_p95_days,
        _ => false,
    }
}

/// A configured policy that can never be reached: the entry at `first`
/// dominates the later entry at `second` (positions in the configured list)
/// for the dependency types in `overlap`.
#[derive(Debug, Clone, Copy)]
pub struct DominanceWarning {
    pub metric: Metric,
    pub first: usize,
    pub second: usize,
    pub overlap: DependencyTypes,
}

/// Entries `i < j` of one metric whose scopes overlap, where `i` dominates `j`.
pub open spec fn dominated_pair(pols: Seq<(Metric, Policy)>, m: Metric, i: int, j: int) -> bool {
    &&& 0 <= i < j < pols.len()
    &&& pols[i].0 == m && pols[j].0 == m
    &&& pols[i].1.types()@.intersect(pols[j].1.types()@) != Set::<DependencyType>::empty()
    &&& dominates(pols[i].1, pols[j].1)
}

/// Finds the unreachable policies of a metric: every dominated pair, in order.
pub fn validate(metric: Metric, policies: &Vec<(Metric, Policy)>) -> (r: Vec<DominanceWarning>)
    ensures
        forall|k: int| 0 <= k < r@.len() ==> (#[trigger] r@[k]).metric == metric
            && dominated_pair(policies@, metric, r@[k].first as int, r@[k].second as int)
            && r@[k].overlap@ == policies@[r@[k].first as int].1.types()@.intersect(policies@[r@[k].second as int].1.types()@),
        forall|i: int, j: int| #[trigger] dominated_pair(policies@, metric, i, j) ==> exists|k: int|
            0 <= k < r@.len() && (#[trigger] r@[k]).first == i && r@[k].second == j,
{
    let n = policies.len();
    let mut r: Vec<DominanceWarning> = Vec::new();
    let mut i: usize = 0;
    while i < n
        invariant
            n == policies@.len(),
            i <= n,
            forall|k: int| 0 <= k < r@.len() ==> (#[trigger] r@[k]).metric == metric
                && dominated_pair(policies@, metric, r@[k].first as int, r@[k].second as int)
                && r@[k].overlap@ == policies@[r@[k].first as int].1.types()@.intersect(policies@[r@[k].second as int].1.types()@),
            forall|a: int, b: int| #[trigger] dominated_pair(policies@, metric, a, b) && a < i ==> exists|k: int|
                0 <= k < r@.len() && (#[trigger] r@[k]).first == a && r@[k].second == b,
        decreases n - i,
    {
        let mut j: usize = i + 1;
        while j < n
            invariant
                n == policies@.len(),
                i < n,
                i + 1 <= j <= n,
                forall|k: int| 0 <= k < r@.len() ==> (#[trigger] r@[k]).metric == metric
                    && dominated_pair(policies@, metric, r@[k].first as int, r@[k].second as int)
                    && r@[k].overlap@ == policies@[r@[k].first as int].1.types()@.intersect(policies@[r@[k].second as int].1.types()@),
                forall|a: int, b: int| #[trigger] dominated_pair(policies@, metric, a, b) && (a < i || (a == i && b < j)) ==> exists|k: int|
                    0 <= k < r@.len() && (#[trigger] r@[k]).first == a && r@[k].second == b,
            decreases n - j,
        {
            let a = &policies[i];
            let b = &policies[j];
            if a.0 == metric && b.0 == metric {
                let overlap = a.1.dependency_types().intersect(&b.1.dependency_types());
                if !overlap.is_empty() && policy_dominates(&a.1, &b.1) {
                    let ghost before = r@;
                    r.push(DominanceWarning { metric, first: i, second: j, overlap });
                    proof {
                        assert forall|x: int, y: int| #[trigger] dominated_pair(policies@, metric, x, y) && (x < i || (x == i && y < j + 1)) implies exists|k: int|
                            0 <= k < r@.len() && (#[trigger] r@[k]).first == x && r@[k].second == y by {
                            if x == i && y == j {
                                assert(r@[before.len() as int].first == x);
                            } else {
                                let k = choose|k: int| 0 <= k < before.len() && (#[trigger] before[k]).first == x && before[k].second == y;
                                assert(r@[k] == before[k]);
                            }
                        }
                    }
                }
            }
            j = j + 1;
        }
        i = i + 1;
    }
    r
}

impl DominanceWarning {
    /// `metric: Policy #i dominates policy #j for dependency types 'types'`.
    pub fn to_text(&self) -> (r: String)
        ensures
            r@ == self.metric.name_text() + ": Policy #"@ + decimal_text(self.first as nat) + " dominates policy #"@
                + decimal_text(self.second as nat) + " for dependency types '"@ + self.overlap.text() + "'"@,
    {
        let mut s = String::from_str(self.metric.name());
        s.append(": Policy #");
        let a = decimal(self.first as u64);
        s.append(a.as_str());
        s.append(" dominates policy #");
        let b = decimal(self.second as u64);
        s.append(b.as_str());
        s.append(" for dependency types '");
        let t = self.overlap.to_text();
        s.append(t.as_str());
        s.append("'");
        s
    }
}

} // verus!
