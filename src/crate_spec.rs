//! Dependencies to appraise and the repositories they come from.

use vstd::prelude::*;
use crate::text::text_eq;
use crate::version::Version;

verus! {

/// Where a crate's source is hosted.
#[derive(Debug, Clone)]
pub struct RepoSpec {
    pub host: String,
    pub owner: String,
    pub repo: String,
    pub url: String,
}

/// A dependency to appraise: a name, a version, and optionally its repository.
#[derive(Debug, Clone)]
pub struct CrateSpec {
    pub name: String,
    pub version: Version,
    pub repo: Option<RepoSpec>,
}

impl RepoSpec {
    /// A copy equal to this one.
    pub fn duplicate(&self) -> (r: RepoSpec)
        ensures
            r == *self,
    {
        RepoSpec { host: self.host.clone(), owner: self.owner.clone(), repo: self.repo.clone(), url: self.url.clone() }
    }
}

impl CrateSpec {
    /// A dependency without repository.
    pub fn from_arcs(name: String, version: Version) -> (r: CrateSpec)
        ensures
            r.name == name,
            r.version == version,
            r.repo is None,
    {
        CrateSpec { name, version, repo: None }
    }

    /// A dependency with its repository.
    pub fn from_arcs_with_repo(name: String, version: Version, repo: RepoSpec) -> (r: CrateSpec)
        ensures
            r.name == name,
            r.version == version,
            r.repo == Some(repo),
    {
        CrateSpec { name, version, repo: Some(repo) }
    }

    pub fn name(&self) -> (r: &str)
        ensures
            r@ == self.name@,
    {
        self.name.as_str()
    }

    pub fn version(&self) -> (r: &Version)
        ensures
            *r == self.version,
    {
        &self.version
    }

    pub fn repo(&self) -> (r: Option<&RepoSpec>)
        ensures
            r == match self.repo { Some(ref x) => Some(x), None => None::<&RepoSpec> },
    {
        match &self.repo {
            Some(x) => Some(x),
            None => None,
        }
    }

    /// A copy equal to this one.
    pub fn duplicate(&self) -> (r: CrateSpec)
        ensures
            r == *self,
    {
        let repo = match &self.repo {
            Some(x) => Some(x.duplicate()),
            None => None,
        };
        CrateSpec { name: self.name.clone(), version: self.version.duplicate(), repo }
    }
}

impl RepoSpec {
    pub open spec fn same(&self, other: &RepoSpec) -> bool {
        self.host@ == other.host@ && self.owner@ == other.owner@ && self.repo@ == other.repo@ && self.url@ == other.url@
    }

    /// Whether both name the same repository.
    pub fn same_as(&self, other: &RepoSpec) -> (r: bool)
        ensures
            r == self.same(other),
    {
        text_eq(self.host.as_str(), other.host.as_str()) && text_eq(self.owner.as_str(), other.owner.as_str())
            && text_eq(self.repo.as_str(), other.repo.as_str()) && text_eq(self.url.as_str(), other.url.as_str())
    }
}

/// Groups the dependencies that have a repository by that repository, so each
/// repository is fetched once. Groups come in order of first appearance.
pub fn by_repo(specs: &Vec<CrateSpec>) -> (r: Vec<(RepoSpec, Vec<CrateSpec>)>)
    ensures
        forall|g: int, h: int| 0 <= g < h < r@.len() ==> !(#[trigger] r@[g]).0.same(&(#[trigger] r@[h]).0),
        forall|g: int, k: int| 0 <= g < r@.len() && 0 <= k < (#[trigger] r@[g]).1@.len() ==>
            (#[trigger] r@[g].1@[k]).repo is Some && r@[g].1@[k].repo->Some_0.same(&r@[g].0),
        forall|i: int| 0 <= i < specs@.len() && (#[trigger] specs@[i]).repo is Some ==> exists|g: int, k: int|
            0 <= g < r@.len() && 0 <= k < r@[g].1@.len() && #[trigger] r@[g].1@[k] == specs@[i],
{
    let mut r: Vec<(RepoSpec, Vec<CrateSpec>)> = Vec::new();
    let mut i: usize = 0;
    while i < specs.len()
        invariant
            i <= specs.len(),
            forall|g: int, h: int| 0 <= g < h < r@.len() ==> !(#[trigger] r@[g]).0.same(&(#[trigger] r@[h]).0),
            forall|g: int, k: int| 0 <= g < r@.len() && 0 <= k < (#[trigger] r@[g]).1@.len() ==>
                (#[trigger] r@[g].1@[k]).repo is Some && r@[g].1@[k].repo->Some_0.same(&r@[g].0),
            forall|t: int| 0 <= t < i && (#[trigger] specs@[t]).repo is Some ==> exists|g: int, k: int|
                0 <= g < r@.len() && 0 <= k < r@[g].1@.len() && #[trigger] r@[g].1@[k] == specs@[t],
        decreases specs.len() - i,
    {
        match &specs[i].repo {
            None => {},
            Some(repo) => {
                let ghost before = r@;
                let mut found: Option<usize> = None;
                let mut h: usize = 0;
                while h < r.len()
                    invariant
                        r@ == before,
                        h <= r@.len(),
                        found is Some ==> found->Some_0 < r@.len() && r@[found->Some_0 as int].0.same(repo),
                        found is None ==> forall|x: int| 0 <= x < h ==> !(#[trigger] r@[x]).0.same(repo),
                    decreases r.len() - h,
                {
                    if found.is_none() && r[h].0.same_as(repo) {
                        found = Some(h);
                    }
                    h = h + 1;
                }
                let g: usize = match found {
                    Some(x) => x,
                    None => r.len(),
                };
                let spec = specs[i].duplicate();
                if g < r.len() {
                    let (key, mut members) = r.remove(g);
                    let ghost old_members = members@;
                    members.push(spec);
                    r.insert(g, (key, members));
                    proof {
                        assert(r@ == before.update(g as int, (before[g as int].0, members)));
                        assert forall|x: int, k: int| 0 <= x < r@.len() && 0 <= k < (#[trigger] r@[x]).1@.len() implies
                            (#[trigger] r@[x].1@[k]).repo is Some && r@[x].1@[k].repo->Some_0.same(&r@[x].0) by {
                            if x == g && k == old_members.len() {
                                assert(r@[x].1@[k] == specs@[i as int]);
                            } else if x == g {
                                assert(r@[x].1@[k] == before[x].1@[k]);
                            } else {
                                assert(r@[x] == before[x]);
                            }
                        }
                        assert forall|t: int| 0 <= t < i + 1 && (#[trigger] specs@[t]).repo is Some implies exists|x: int, k: int|
                            0 <= x < r@.len() && 0 <= k < r@[x].1@.len() && #[trigger] r@[x].1@[k] == specs@[t] by {
                            if t == i {
                                assert(r@[g as int].1@[old_members.len() as int] == specs@[t]);
                            } else {
                                let (x, k) = choose|x: int, k: int| 0 <= x < before.len() && 0 <= k < before[x].1@.len() && #[trigger] before[x].1@[k] == specs@[t];
                                if x == g {
                                    assert(r@[x].1@[k] == specs@[t]);
                                } else {
                                    assert(r@[x] == before[x]);
                                }
                            }
                        }
                    }
                } else {
                    let mut members: Vec<CrateSpec> = Vec::new();
                    members.push(spec);
                    r.push((repo.duplicate(), members));
                    proof {
                        assert forall|x: int, k: int| 0 <= x < r@.len() && 0 <= k < (#[trigger] r@[x]).1@.len() implies
                            (#[trigger] r@[x].1@[k]).repo is Some && r@[x].1@[k].repo->Some_0.same(&r@[x].0) by {
                            if x < before.len() {
                                assert(r@[x] == before[x]);
                            }
                        }
                        assert forall|x: int, y: int| 0 <= x < y < r@.len() implies !(#[trigger] r@[x]).0.same(&(#[trigger] r@[y]).0) by {
                            if y == before.len() {
                                assert(!before[x].0.same(repo));
                            } else {
                                assert(r@[x] == before[x] && r@[y] == before[y]);
                            }
                        }
                        assert forall|t: int| 0 <= t < i + 1 && (#[trigger] specs@[t]).repo is Some implies exists|x: int, k: int|
                            0 <= x < r@.len() && 0 <= k < r@[x].1@.len() && #[trigger] r@[x].1@[k] == specs@[t] by {
                            if t == i {
                                assert(r@[before.len() as int].1@[0] == specs@[t]);
                            } else {
                                let (x, k) = choose|x: int, k: int| 0 <= x < before.len() && 0 <= k < before[x].1@.len() && #[trigger] before[x].1@[k] == specs@[t];
                                assert(r@[x] == before[x]);
                            }
                        }
                    }
                }
            },
        }
        i = i + 1;
    }
    r
}

} // verus!
