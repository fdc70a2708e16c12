//! A crate named on the command line, with or without a version.

use vstd::prelude::*;
use crate::crate_spec::CrateSpec;
use crate::version::{Version, parsed_version};

verus! {

/// A crate name and an optional version, written `name` or `name@version`.
#[derive(Debug, Clone, PartialEq, Eq, Hash)]
pub struct CrateRef {
    name: String,
    version: Option<Version>,
}

/// The position of the first `@`, if any.
pub open spec fn at_sign(s: Seq<char>) -> Option<int> {
    if exists|i: int| 0 <= i < s.len() && s[i] == '@' {
        Some(choose|i: int| 0 <= i < s.len() && s[i] == '@' && forall|k: int| 0 <= k < i ==> s[k] != '@')
    } else {
        None
    }
}

impl CrateRef {
    pub closed spec fn name_view(&self) -> Seq<char> {
        self.name@
    }

    pub closed spec fn version_view(&self) -> Option<Version> {
        self.version
    }

    pub fn new(name: &str, version: Option<Version>) -> (r: CrateRef)
        ensures
            r.name_view() == name@,
            r.version_view() == version,
    {
        CrateRef { name: String::from_str(name), version }
    }

    pub fn name(&self) -> (r: &str)
        ensures
            r@ == self.name_view(),
    {
        self.name.as_str()
    }

    pub fn version(&self) -> (r: Option<&Version>)
        ensures
            r == match self.version_view() { Some(ref v) => Some(v), None => None::<&Version> },
    {
        match &self.version {
            Some(v) => Some(v),
            None => None,
        }
    }

    /// A copy of the name.
    pub fn name_arc(&self) -> (r: String)
        ensures
            r@ == self.name_view(),
    {
        self.name.clone()
    }

    /// A copy of the version, if any.
    pub fn version_arc(&self) -> (r: Option<Version>)
        ensures
            r == self.version_view(),
    {
        match &self.version {
            Some(v) => Some(v.duplicate()),
            None => None,
        }
    }

    /// The dependency this names, if it has a version.
    pub fn to_spec(&self) -> (r: Option<CrateSpec>)
        ensures
            self.version_view() is None ==> r is None,
            self.version_view() is Some ==> r is Some && r->Some_0.name@ == self.name_view()
                && r->Some_0.version == self.version_view()->Some_0 && r->Some_0.repo is None,
    {
        match &self.version {
            Some(v) => Some(CrateSpec::from_arcs(self.name.clone(), v.duplicate())),
            None => None,
        }
    }

    /// `name` alone, or `name@version`.
    pub open spec fn text(&self) -> Seq<char> {
        match self.version_view() {
            Some(v) => self.name_view() + "@"@ + v.text(),
            None => self.name_view(),
        }
    }

    pub fn to_text(&self) -> (r: String)
        ensures
            r@ == self.text(),
    {
        let mut s = self.name.clone();
        match &self.version {
            Some(v) => {
                s.append("@");
                let t = v.to_text();
                s.append(t.as_str());
            },
            None => {},
        }
        s
    }

    /// Reads `name` or `name@version`, splitting at the first `@`; the part
    /// after it must be a valid semantic version.
    pub fn parse(s: &str) -> (r: Result<CrateRef, String>)
        ensures
            at_sign(s@) is None ==> r is Ok && r->Ok_0.name_view() == s@ && r->Ok_0.version_view() is None,
            at_sign(s@) is Some ==> ({
                let i = at_sign(s@)->Some_0;
                let p = parsed_version(s@.subrange(i + 1, s@.len() as int));
                &&& (r is Ok <==> p is Some)
                &&& r is Ok ==> r->Ok_0.name_view() == s@.subrange(0, i) && r->Ok_0.version_view() is Some
                    && Some(r->Ok_0.version_view()->Some_0.fields()) == p
            }),
    {
        let n = s.unicode_len();
        let mut i: usize = 0;
        while i < n
            invariant
                n == s@.len(),
                i <= n,
                forall|k: int| 0 <= k < i ==> s@[k] != '@',
            decreases n - i,
        {
            if s.get_char(i) == '@' {
                proof {
                    let j = at_sign(s@)->Some_0;
                    assert(s@[i as int] == '@');
                    if j < i {
                        assert(s@[j] != '@');
                    }
                    if j > i {
                        assert(s@[i as int] == '@');
                    }
                }
                let name = s.substring_char(0, i);
                let rest = s.substring_char(i + 1, n);
                return match Version::parse(rest) {
                    Ok(v) => Ok(CrateRef::new(name, Some(v))),
                    Err(e) => Err(e),
                };
            }
            i = i + 1;
        }
        Ok(CrateRef::new(s, None))
    }
}

impl core::str::FromStr for CrateRef {
    type Err = String;

    fn from_str(s: &str) -> Result<CrateRef, String> {
        CrateRef::parse(s)
    }
}

} // verus!
