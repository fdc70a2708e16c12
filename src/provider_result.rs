//! The outcome of asking one provider about one dependency.

use vstd::prelude::*;

verus! {

/// What a provider found for one dependency.
#[derive(Debug, Clone)]
pub enum ProviderResult<T> {
    /// A complete payload was obtained.
    Found(T),
    /// No crate of that name exists.
    CrateNotFound,
    /// The crate exists but not in the requested version.
    VersionNotFound,
    /// Fetching or reading failed; the message says why.
    Error(String),
}

impl<T> ProviderResult<T> {
    pub open spec fn found(&self) -> bool {
        self is Found
    }

    /// Returns `true` if the result is `Found`.
    pub fn is_found(&self) -> (r: bool)
        ensures
            r == self.found(),
    {
        match self {
            ProviderResult::Found(_) => true,
            _ => false,
        }
    }

    /// Converts into a `Result`, with a message for each outcome other than `Found`.
    pub fn into_result(self) -> (r: Result<T, String>)
        ensures
            self is Found ==> r == Ok::<T, String>(self->Found_0),
            self is CrateNotFound ==> r is Err && r->Err_0@ == "crate not found"@,
            self is VersionNotFound ==> r is Err && r->Err_0@ == "version not found"@,
            self is Error ==> r is Err && r->Err_0@ == self->Error_0@,
    {
        match self {
            ProviderResult::Found(data) => Ok(data),
            ProviderResult::CrateNotFound => Err(String::from_str("crate not found")),
            ProviderResult::VersionNotFound => Err(String::from_str("version not found")),
            ProviderResult::Error(e) => Err(e),
        }
    }

    /// The payload, for `Found` only.
    pub fn ok(self) -> (r: Option<T>)
        ensures
            self is Found ==> r == Some(self->Found_0),
            !(self is Found) ==> r is None,
    {
        match self {
            ProviderResult::Found(data) => Some(data),
            _ => None,
        }
    }

    /// The name of the variant.
    pub fn status_str(&self) -> (r: &'static str)
        ensures
            r@ == self.status_text(),
    {
        match self {
            ProviderResult::Found(_) => "Found",
            ProviderResult::CrateNotFound => "CrateNotFound",
            ProviderResult::VersionNotFound => "VersionNotFound",
            ProviderResult::Error(_) => "Error",
        }
    }

    pub open spec fn status_text(&self) -> Seq<char> {
        match self {
            ProviderResult::Found(_) => "Found"@,
            ProviderResult::CrateNotFound => "CrateNotFound"@,
            ProviderResult::VersionNotFound => "VersionNotFound"@,
            ProviderResult::Error(_) => "Error"@,
        }
    }
}

} // verus!
