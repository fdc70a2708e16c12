//! The facts gathered about a dependency, one payload per provider.

use vstd::prelude::*;
use crate::advisories::AdvisoryData;
use crate::provider_result::ProviderResult;
use crate::version::Version;

verus! {

/// Whether an owner is a person or a team.
#[derive(Debug, Clone, Copy, PartialEq, Eq, Structural, Hash)]
pub enum OwnerKind {
    User,
    Team,
}

/// An account allowed to publish the crate.
#[derive(Debug, Clone)]
pub struct Owner {
    pub login: String,
    pub kind: OwnerKind,
    pub name: Option<String>,
}

/// Registry data about one version of a crate. Times are Unix seconds.
#[derive(Debug, Clone)]
pub struct CrateVersionData {
    pub timestamp: i64,
    pub version: Version,
    pub description: Option<String>,
    pub homepage: Option<String>,
    pub documentation: Option<String>,
    pub license: Option<String>,
    pub rust_version: Option<String>,
    pub edition: Option<String>,
    pub features: Vec<(String, Vec<String>)>,
    pub created_at: i64,
    pub updated_at: i64,
    pub yanked: bool,
    pub downloads: u64,
}

/// Registry data about a crate as a whole. Times are Unix seconds; each
/// monthly download entry is (month, downloads in that month), the month
/// numbered as `year * 12 + month - 1`, oldest first.
#[derive(Debug, Clone)]
pub struct CrateOverallData {
    pub timestamp: i64,
    pub name: String,
    pub created_at: i64,
    pub updated_at: i64,
    pub repository: Option<String>,
    pub categories: Vec<String>,
    pub keywords: Vec<String>,
    pub owners: Vec<Owner>,
    pub monthly_downloads: Vec<(i64, u64)>,
    pub downloads: u64,
    pub dependents: u64,
}

/// Ages in days of closed issues or pull requests.
#[derive(Debug, Clone, Copy)]
pub struct AgeStats {
    pub avg: u32,
    pub p50: u32,
    pub p75: u32,
    pub p90: u32,
    pub p95: u32,
}

/// Counts and ages of issues or of pull requests.
#[derive(Debug, Clone, Copy)]
pub struct IssueStats {
    pub open_count: u64,
    pub closed_count: u64,
    pub closed_age: AgeStats,
}

/// Repository statistics from the hosting platform.
#[derive(Debug, Clone, Copy)]
pub struct HostingData {
    pub timestamp: i64,
    pub stars: u64,
    pub forks: u64,
    pub subscribers: u64,
    pub contributors: u64,
    pub commits_last_3_months: u64,
    pub issues: IssueStats,
    pub pulls: IssueStats,
}

/// What inspecting the source code found.
#[derive(Debug, Clone, Copy)]
pub struct CodebaseData {
    pub timestamp: i64,
    pub unsafe_count: u64,
    pub transitive_dependencies: u64,
    pub example_count: u64,
}

/// Line coverage, in hundredths of a percent (7550 stands for 75.5%).
#[derive(Debug, Clone, Copy)]
pub struct CoverageData {
    pub timestamp: i64,
    pub code_coverage_percentage: u32,
}

/// Documentation statistics.
#[derive(Debug, Clone, Copy)]
pub struct DocsMetrics {
    pub doc_coverage_percentage: u8,
    pub public_api_elements: u64,
    pub undocumented_elements: u64,
    pub examples_in_docs: u64,
    pub has_crate_level_docs: bool,
    pub broken_doc_links: u64,
}

/// Documentation statistics, or the format version that could not be read.
#[derive(Debug, Clone, Copy)]
pub enum DocMetricState {
    Found(DocsMetrics),
    UnknownFormatVersion(u64),
}

impl DocMetricState {
    /// The metrics if the format was understood.
    pub fn found(&self) -> (r: Option<&DocsMetrics>)
        ensures
            self is Found ==> r == Some(&self->Found_0),
            self is UnknownFormatVersion ==> r is None,
    {
        match self {
            DocMetricState::Found(metrics) => Some(metrics),
            DocMetricState::UnknownFormatVersion(_) => None,
        }
    }
}

#[derive(Debug, Clone, Copy)]
pub struct DocsData {
    pub timestamp: i64,
    pub metrics: DocMetricState,
}

/// Everything gathered about one dependency in one run.
#[derive(Debug, Clone)]
pub struct CrateFacts {
    pub collected_at: i64,
    pub crate_version_data: ProviderResult<CrateVersionData>,
    pub crate_overall_data: ProviderResult<CrateOverallData>,
    pub hosting_data: ProviderResult<HostingData>,
    pub advisory_data: ProviderResult<AdvisoryData>,
    pub codebase_data: ProviderResult<CodebaseData>,
    pub coverage_data: ProviderResult<CoverageData>,
    pub docs_data: ProviderResult<DocsData>,
}

impl CrateFacts {
    pub open spec fn complete(&self) -> bool {
        &&& self.crate_version_data is Found
        &&& self.crate_overall_data is Found
        &&& self.hosting_data is Found
        &&& self.advisory_data is Found
        &&& self.codebase_data is Found
        &&& self.coverage_data is Found
        &&& self.docs_data is Found
    }

    /// True when every provider found its data.
    pub fn is_complete(&self) -> (r: bool)
        ensures
            r == self.complete(),
    {
        self.crate_version_data.is_found() && self.crate_overall_data.is_found()
            && self.hosting_data.is_found() && self.advisory_data.is_found()
            && self.codebase_data.is_found() && self.coverage_data.is_found()
            && self.docs_data.is_found()
    }
}

} // verus!
