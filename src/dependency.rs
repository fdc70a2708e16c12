//! Dependency types and the sets of them that policies apply to.

use vstd::prelude::*;
use crate::list::{list_items, split_list};
use crate::text::text_eq;

verus! {

/// How a dependency is used by the crate that depends on it.
#[derive(Debug, Clone, Copy, PartialEq, Eq, Structural, Hash, PartialOrd, Ord)]
pub enum DependencyType {
    Standard,
    Dev,
    Build,
}

impl DependencyType {
    /// The lower-case name used in configuration files.
    pub fn name(self) -> (r: &'static str)
        ensures
            r@ == self.name_text(),
    {
        match self {
            DependencyType::Standard => "standard",
            DependencyType::Dev => "dev",
            DependencyType::Build => "build",
        }
    }

    pub open spec fn name_text(self) -> Seq<char> {
        match self {
            DependencyType::Standard => "standard"@,
            DependencyType::Dev => "dev"@,
            DependencyType::Build => "build"@,
        }
    }
}

/// How reports are coloured.
#[derive(Debug, Clone, Copy, PartialEq, Eq, Structural)]
pub enum ColorMode {
    Always,
    Never,
    Auto,
}

/// A set of dependency types, the scope a policy applies to.
#[derive(Debug, Clone, Copy, PartialEq, Eq, Structural)]
pub struct DependencyTypes {
    pub standard: bool,
    pub dev: bool,
    pub build: bool,
}

impl View for DependencyTypes {
    type V = Set<DependencyType>;

    open spec fn view(&self) -> Set<DependencyType> {
        Set::new(
            |t: DependencyType|
                match t {
                    DependencyType::Standard => self.standard,
                    DependencyType::Dev => self.dev,
                    DependencyType::Build => self.build,
                },
        )
    }
}

impl DependencyTypes {
    /// The empty set.
    pub fn none() -> (r: Self)
        ensures
            r@ == Set::<DependencyType>::empty(),
    {
        let r = DependencyTypes { standard: false, dev: false, build: false };
        assert(r@ =~= Set::<DependencyType>::empty());
        r
    }

    /// The set that holds just the standard dependency type, which policies use
    /// when they name no types.
    pub fn standard_only() -> (r: Self)
        ensures
            r@ == set![DependencyType::Standard],
    {
        let r = DependencyTypes { standard: true, dev: false, build: false };
        assert(r@ =~= set![DependencyType::Standard]);
        r
    }

    /// The set of the types listed.
    pub fn from_types(types: &Vec<DependencyType>) -> (r: Self)
        ensures
            forall|t: DependencyType| r@.contains(t) <==> types@.contains(t),
    {
        let mut r = DependencyTypes { standard: false, dev: false, build: false };
        let mut i: usize = 0;
        while i < types.len()
            invariant
                i <= types.len(),
                forall|t: DependencyType|
                    r@.contains(t) <==> exists|k: int| 0 <= k < i && #[trigger] types@[k] == t,
            decreases types.len() - i,
        {
            let ghost before = r;
            match types[i] {
                DependencyType::Standard => r.standard = true,
                DependencyType::Dev => r.dev = true,
                DependencyType::Build => r.build = true,
            }
            i = i + 1;
            assert forall|t: DependencyType|
                r@.contains(t) <==> exists|k: int| 0 <= k < i && #[trigger] types@[k] == t by {
                assert(r@.contains(t) == (before@.contains(t) || t == types@[i - 1]));
                if t == types@[i - 1] {
                    assert(types@[i - 1] == t);
                }
                if exists|k: int| 0 <= k < i && #[trigger] types@[k] == t {
                    let k = choose|k: int| 0 <= k < i && #[trigger] types@[k] == t;
                    if k < i - 1 {
                        assert(before@.contains(t));
                    }
                }
            }
        }
        r
    }

    pub fn contains(&self, dep_type: DependencyType) -> (r: bool)
        ensures
            r == self@.contains(dep_type),
    {
        match dep_type {
            DependencyType::Standard => self.standard,
            DependencyType::Dev => self.dev,
            DependencyType::Build => self.build,
        }
    }

    pub fn is_empty(&self) -> (r: bool)
        ensures
            r == (self@ == Set::<DependencyType>::empty()),
    {
        let r = !self.standard && !self.dev && !self.build;
        if !r {
            if self.standard {
                assert(self@.contains(DependencyType::Standard));
            } else if self.dev {
                assert(self@.contains(DependencyType::Dev));
            } else {
                assert(self@.contains(DependencyType::Build));
            }
        } else {
            assert(self@ =~= Set::<DependencyType>::empty());
        }
        r
    }

    pub fn intersect(&self, other: &Self) -> (r: Self)
        ensures
            r@ == self@.intersect(other@),
    {
        let r = DependencyTypes {
            standard: self.standard && other.standard,
            dev: self.dev && other.dev,
            build: self.build && other.build,
        };
        assert(r@ =~= self@.intersect(other@));
        r
    }

    /// The members, in the order of their names.
    pub fn iter(&self) -> (r: Vec<DependencyType>)
        ensures
            forall|t: DependencyType| r@.contains(t) <==> self@.contains(t),
            forall|i: int, j: int| 0 <= i < j < r@.len() ==> r@[i] != r@[j],
    {
        let mut r: Vec<DependencyType> = Vec::new();
        if self.build {
            r.push(DependencyType::Build);
        }
        if self.dev {
            r.push(DependencyType::Dev);
        }
        if self.standard {
            r.push(DependencyType::Standard);
        }
        assert forall|t: DependencyType| r@.contains(t) <==> self@.contains(t) by {
            if self@.contains(t) {
                match t {
                    DependencyType::Build => assert(r@[0] == t),
                    DependencyType::Dev => {
                        if self.build { assert(r@[1] == t) } else { assert(r@[0] == t) }
                    },
                    DependencyType::Standard => assert(r@[r@.len() - 1] == t),
                }
            }
        }
        r
    }

    /// The names of the members, sorted and joined by commas, or `(no types)`.
    pub fn to_text(&self) -> (r: String)
        ensures
            r@ == self.text(),
    {
        if !self.standard && !self.dev && !self.build {
            return String::from_str("(no types)");
        }
        let mut r = String::new();
        let mut first = true;
        if self.build {
            r.append("build");
            first = false;
        }
        if self.dev {
            if !first {
                r.append(", ");
            }
            r.append("dev");
            first = false;
        }
        if self.standard {
            if !first {
                r.append(", ");
            }
            r.append("standard");
        }
        r
    }

    pub open spec fn text(&self) -> Seq<char> {
        if !self.standard && !self.dev && !self.build {
            "(no types)"@
        } else {
            let b = if self.build { "build"@ } else { Seq::empty() };
            let d = if self.dev {
                if self.build { ", "@ + "dev"@ } else { "dev"@ }
            } else {
                Seq::empty()
            };
            let s = if self.standard {
                if self.build || self.dev { ", "@ + "standard"@ } else { "standard"@ }
            } else {
                Seq::empty()
            };
            b + d + s
        }
    }
}

/// The dependency type a name denotes.
pub open spec fn type_named(name: Seq<char>) -> Option<DependencyType> {
    if name == "standard"@ {
        Some(DependencyType::Standard)
    } else if name == "dev"@ {
        Some(DependencyType::Dev)
    } else if name == "build"@ {
        Some(DependencyType::Build)
    } else {
        None
    }
}

impl DependencyTypes {
    /// Reads a comma-separated list of type names, such as `standard, dev`.
    /// Fails on the first name that is not a dependency type.
    pub fn parse(text: &str) -> (r: Result<DependencyTypes, String>)
        ensures
            r is Ok <==> forall|i: int| 0 <= i < list_items(text@).len() ==> (#[trigger] type_named(list_items(text@)[i])) is Some,
            r is Ok ==> forall|t: DependencyType| r->Ok_0@.contains(t) <==> exists|i: int|
                0 <= i < list_items(text@).len() && #[trigger] type_named(list_items(text@)[i]) == Some(t),
    {
        let items = split_list(text);
        let ghost names = list_items(text@);
        assert(names.len() == items@.len());
        let mut r = DependencyTypes { standard: false, dev: false, build: false };
        let mut i: usize = 0;
        while i < items.len()
            invariant
                names == list_items(text@),
                items@.map_values(|x: String| x@) == names,
                i <= items.len(),
                forall|k: int| 0 <= k < i ==> (#[trigger] type_named(names[k])) is Some,
                forall|t: DependencyType| r@.contains(t) <==> exists|k: int| 0 <= k < i && #[trigger] type_named(names[k]) == Some(t),
            decreases items.len() - i,
        {
            let ghost before = r;
            assert(names[i as int] == items@[i as int]@);
            let name = items[i].as_str();
            if text_eq(name, "standard") {
                r.standard = true;
            } else if text_eq(name, "dev") {
                r.dev = true;
            } else if text_eq(name, "build") {
                r.build = true;
            } else {
                assert(type_named(names[i as int]) is None);
                let mut m = String::from_str("invalid dependency type: ");
                m.append(name);
                return Err(m);
            }
            i = i + 1;
            assert forall|t: DependencyType| r@.contains(t) <==> exists|k: int| 0 <= k < i && #[trigger] type_named(names[k]) == Some(t) by {
                assert(r@.contains(t) == (before@.contains(t) || type_named(names[i - 1]) == Some(t)));
                if exists|k: int| 0 <= k < i && #[trigger] type_named(names[k]) == Some(t) {
                    let k = choose|k: int| 0 <= k < i && #[trigger] type_named(names[k]) == Some(t);
                    if k < i - 1 {
                        assert(before@.contains(t));
                    }
                }
                if type_named(names[i - 1]) == Some(t) {
                    assert(type_named(names[i - 1]) == Some(t));
                }
            }
        }
        Ok(r)
    }
}

impl Default for DependencyTypes {
    fn default() -> (r: Self)
        ensures
            r@ == set![DependencyType::Standard],
    {
        DependencyTypes::standard_only()
    }
}

} // verus!
