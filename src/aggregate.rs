//! Re-keying of provider results by dependency.

use vstd::prelude::*;
use crate::advisories::AdvisoryData;
use crate::crate_spec::CrateSpec;
use crate::facts::{CodebaseData, CoverageData, CrateFacts, CrateOverallData, CrateVersionData, DocsData, HostingData};
use crate::provider_result::ProviderResult;
use crate::text::text_eq;

verus! {

/// Two specs name the same dependency: equal name and version.
pub open spec fn same_key(a: CrateSpec, b: CrateSpec) -> bool {
    a.name@ == b.name@ && a.version.fields() == b.version.fields()
}

/// The spec at `i` repeats an earlier one.
pub open spec fn repeated(specs: Seq<CrateSpec>, i: int) -> bool {
    exists|t: int| 0 <= t < i && same_key(#[trigger] specs[t], specs[i])
}

/// The position of the first result for `spec`, if any.
pub open spec fn first_for<T>(results: Seq<(CrateSpec, ProviderResult<T>)>, spec: CrateSpec) -> Option<int> {
    if exists|k: int| 0 <= k < results.len() && same_key(#[trigger] results[k].0, spec) {
        Some(choose|k: int| 0 <= k < results.len() && same_key(#[trigger] results[k].0, spec)
            && forall|t: int| 0 <= t < k ==> !same_key(#[trigger] results[t].0, spec))
    } else {
        None
    }
}

impl CrateSpec {
    /// Whether both name the same dependency.
    pub fn same_key(&self, other: &CrateSpec) -> (r: bool)
        ensures
            r == same_key(*self, *other),
    {
        text_eq(self.name.as_str(), other.name.as_str()) && self.version.major == other.version.major
            && self.version.minor == other.version.minor && self.version.patch == other.version.patch
            && text_eq(self.version.pre.as_str(), other.version.pre.as_str())
            && text_eq(self.version.build.as_str(), other.version.build.as_str())
    }
}

proof fn lemma_first_exists<T>(results: Seq<(CrateSpec, ProviderResult<T>)>, spec: CrateSpec, k: int)
    requires
        0 <= k < results.len(),
        same_key(results[k].0, spec),
        forall|t: int| 0 <= t < k ==> !same_key(#[trigger] results[t].0, spec),
    ensures
        first_for(results, spec) == Some(k),
{
    let j = first_for(results, spec)->Some_0;
    if j < k {
        assert(!same_key(results[j].0, spec));
    }
    if j > k {
        assert(!same_key(results[k].0, spec));
    }
}

/// Puts a provider's results in the order of `specs`, which the provider may
/// have answered in any order: each dependency gets the first result given
/// for it, or an error if the provider gave none. A dependency listed twice
/// gets, the second time, a further result for it or an error.
pub fn pivot<T>(specs: &Vec<CrateSpec>, results: Vec<(CrateSpec, ProviderResult<T>)>) -> (r: Vec<ProviderResult<T>>)
    ensures
        r@.len() == specs@.len(),
        forall|i: int| 0 <= i < specs@.len() && !repeated(specs@, i) ==> match first_for(results@, #[trigger] specs@[i]) {
            Some(k) => r@[i] == results@[k].1,
            None => r@[i] is Error,
        },
        forall|i: int| 0 <= i < specs@.len() && repeated(specs@, i) ==> (#[trigger] r@[i]) is Error
            || exists|k: int| 0 <= k < results@.len() && same_key(results@[k].0, specs@[i]) && r@[i] == #[trigger] results@[k].1,
{
    let ghost orig = results@;
    let n = results.len();
    let mut slots: Vec<Option<(CrateSpec, ProviderResult<T>)>> = Vec::new();
    let mut results = results;
    while results.len() > 0
        invariant
            n == orig.len(),
            slots@.len() + results@.len() == orig.len(),
            forall|k: int| 0 <= k < slots@.len() ==> (#[trigger] slots@[k]) == Some(orig[k]),
            forall|k: int| 0 <= k < results@.len() ==> (#[trigger] results@[k]) == orig[slots@.len() + k],
        decreases results@.len(),
    {
        let item = results.remove(0);
        slots.push(Some(item));
    }
    let mut r: Vec<ProviderResult<T>> = Vec::new();
    let mut i: usize = 0;
    while i < specs.len()
        invariant
            i <= specs@.len(),
            r@.len() == i,
            slots@.len() == orig.len(),
            forall|k: int| 0 <= k < orig.len() ==> (#[trigger] slots@[k]) == Some(orig[k])
                || (slots@[k] is None && exists|t: int| 0 <= t < i && same_key(orig[k].0, #[trigger] specs@[t])),
            forall|t: int| 0 <= t < i && !repeated(specs@, t) ==> match first_for(orig, #[trigger] specs@[t]) {
                Some(k) => r@[t] == orig[k].1,
                None => r@[t] is Error,
            },
            forall|t: int| 0 <= t < i && repeated(specs@, t) ==> (#[trigger] r@[t]) is Error
                || exists|k: int| 0 <= k < orig.len() && same_key(orig[k].0, specs@[t]) && r@[t] == #[trigger] orig[k].1,
        decreases specs@.len() - i,
    {
        let mut k: usize = 0;
        let mut found = false;
        while k < slots.len() && !found
            invariant
                i < specs@.len(),
                k <= slots@.len(),
                slots@.len() == orig.len(),
                forall|x: int| 0 <= x < orig.len() ==> (#[trigger] slots@[x]) == Some(orig[x])
                    || (slots@[x] is None && exists|t: int| 0 <= t < i && same_key(orig[x].0, #[trigger] specs@[t])),
                !repeated(specs@, i as int) ==> forall|x: int| 0 <= x < k ==> !same_key(#[trigger] orig[x].0, specs@[i as int]),
                found ==> k < slots@.len() && slots@[k as int] == Some(orig[k as int]) && same_key(orig[k as int].0, specs@[i as int]),
            decreases slots@.len() - k, (if found { 0int } else { 1int }),
        {
            let hit = match &slots[k] {
                Some(entry) => entry.0.same_key(&specs[i]),
                None => false,
            };
            if hit {
                found = true;
            } else {
                proof {
                    if same_key(orig[k as int].0, specs@[i as int]) && !repeated(specs@, i as int) {
                        if slots@[k as int] is None {
                            let t = choose|t: int| 0 <= t < i && same_key(orig[k as int].0, #[trigger] specs@[t]);
                            assert(same_key(specs@[t], specs@[i as int]));
                        }
                    }
                }
                k = k + 1;
            }
        }
        let ghost before = slots@;
        if found {
            let entry = slots.remove(k);
            slots.insert(k, None);
            proof {
                if !repeated(specs@, i as int) {
                    lemma_first_exists(orig, specs@[i as int], k as int);
                }
                assert(slots@ == before.update(k as int, None));
                assert forall|x: int| 0 <= x < orig.len() implies (#[trigger] slots@[x]) == Some(orig[x])
                    || (slots@[x] is None && exists|t: int| 0 <= t < i + 1 && same_key(orig[x].0, #[trigger] specs@[t])) by {
                    if x == k {
                        assert(same_key(orig[x].0, specs@[i as int]));
                    } else if before[x] is None {
                        let t = choose|t: int| 0 <= t < i && same_key(orig[x].0, #[trigger] specs@[t]);
                        assert(same_key(orig[x].0, specs@[t]));
                    }
                }
            }
            match entry {
                Some(e) => r.push(e.1),
                None => r.push(ProviderResult::Error(String::from_str("no result for this dependency"))),
            }
        } else {
            proof {
                if !repeated(specs@, i as int) {
                    assert(first_for(orig, specs@[i as int]) is None);
                }
                assert forall|x: int| 0 <= x < orig.len() implies (#[trigger] slots@[x]) == Some(orig[x])
                    || (slots@[x] is None && exists|t: int| 0 <= t < i + 1 && same_key(orig[x].0, #[trigger] specs@[t])) by {
                    if before[x] is None {
                        let t = choose|t: int| 0 <= t < i && same_key(orig[x].0, #[trigger] specs@[t]);
                        assert(same_key(orig[x].0, specs@[t]));
                    }
                }
            }
            r.push(ProviderResult::Error(String::from_str("no result for this dependency")));
        }
        i = i + 1;
    }
    r
}

} // verus!

verus! {

/// `got` is what the pivot gives `spec` from `results`.
pub open spec fn pivoted<T>(results: Seq<(CrateSpec, ProviderResult<T>)>, spec: CrateSpec, got: ProviderResult<T>) -> bool {
    match first_for(results, spec) {
        Some(k) => got == results[k].1,
        None => got is Error,
    }
}

/// Every provider's results, in whatever order they came.
pub struct ProviderResults {
    pub crate_version: Vec<(CrateSpec, ProviderResult<CrateVersionData>)>,
    pub crate_overall: Vec<(CrateSpec, ProviderResult<CrateOverallData>)>,
    pub hosting: Vec<(CrateSpec, ProviderResult<HostingData>)>,
    pub advisory: Vec<(CrateSpec, ProviderResult<AdvisoryData>)>,
    pub codebase: Vec<(CrateSpec, ProviderResult<CodebaseData>)>,
    pub coverage: Vec<(CrateSpec, ProviderResult<CoverageData>)>,
    pub docs: Vec<(CrateSpec, ProviderResult<DocsData>)>,
}

/// Assembles the facts of each dependency from every provider's results: the
/// facts at position `i` hold, for each provider, its result for `specs[i]`
/// (for a dependency listed twice, that holds of its first listing).
pub fn assemble_facts(specs: &Vec<CrateSpec>, collected_at: i64, results: ProviderResults) -> (r: Vec<CrateFacts>)
    ensures
        r@.len() == specs@.len(),
        forall|i: int| 0 <= i < specs@.len() ==> (#[trigger] r@[i]).collected_at == collected_at,
        forall|i: int| 0 <= i < specs@.len() && !repeated(specs@, i) ==> {
            let f = #[trigger] r@[i];
            &&& pivoted(results.crate_version@, specs@[i], f.crate_version_data)
            &&& pivoted(results.crate_overall@, specs@[i], f.crate_overall_data)
            &&& pivoted(results.hosting@, specs@[i], f.hosting_data)
            &&& pivoted(results.advisory@, specs@[i], f.advisory_data)
            &&& pivoted(results.codebase@, specs@[i], f.codebase_data)
            &&& pivoted(results.coverage@, specs@[i], f.coverage_data)
            &&& pivoted(results.docs@, specs@[i], f.docs_data)
        },
{
    let ghost orig = results;
    let mut v = pivot(specs, results.crate_version);
    let mut o = pivot(specs, results.crate_overall);
    let mut h = pivot(specs, results.hosting);
    let mut a = pivot(specs, results.advisory);
    let mut c = pivot(specs, results.codebase);
    let mut g = pivot(specs, results.coverage);
    let mut d = pivot(specs, results.docs);
    let ghost (v0, o0, h0, a0, c0, g0, d0) = (v@, o@, h@, a@, c@, g@, d@);
    let mut r: Vec<CrateFacts> = Vec::new();
    let mut i: usize = 0;
    while i < specs.len()
        invariant
            i <= specs@.len(),
            r@.len() == i,
            v0.len() == specs@.len() && v@ == v0.skip(i as int),
            o0.len() == specs@.len() && o@ == o0.skip(i as int),
            h0.len() == specs@.len() && h@ == h0.skip(i as int),
            a0.len() == specs@.len() && a@ == a0.skip(i as int),
            c0.len() == specs@.len() && c@ == c0.skip(i as int),
            g0.len() == specs@.len() && g@ == g0.skip(i as int),
            d0.len() == specs@.len() && d@ == d0.skip(i as int),
            forall|k: int| 0 <= k < i ==> {
                let f = #[trigger] r@[k];
                &&& f.collected_at == collected_at
                &&& f.crate_version_data == v0[k] && f.crate_overall_data == o0[k] && f.hosting_data == h0[k]
                &&& f.advisory_data == a0[k] && f.codebase_data == c0[k] && f.coverage_data == g0[k] && f.docs_data == d0[k]
            },
        decreases specs@.len() - i,
    {
        let facts = CrateFacts {
            collected_at,
            crate_version_data: v.remove(0),
            crate_overall_data: o.remove(0),
            hosting_data: h.remove(0),
            advisory_data: a.remove(0),
            codebase_data: c.remove(0),
            coverage_data: g.remove(0),
            docs_data: d.remove(0),
        };
        r.push(facts);
        i = i + 1;
        proof {
            assert(v@ =~= v0.skip(i as int));
            assert(o@ =~= o0.skip(i as int));
            assert(h@ =~= h0.skip(i as int));
            assert(a@ =~= a0.skip(i as int));
            assert(c@ =~= c0.skip(i as int));
            assert(g@ =~= g0.skip(i as int));
            assert(d@ =~= d0.skip(i as int));
        }
    }
    r
}

} // verus!
