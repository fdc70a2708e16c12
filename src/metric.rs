//! The catalog of metrics and the categories they are reported under.

use vstd::prelude::*;

verus! {

/// The group a metric is reported under.
#[derive(Debug, Clone, Copy, PartialEq, Eq, Structural, Hash)]
pub enum MetricCategory {
    Metadata,
    Stability,
    Usage,
    Community,
    Activity,
    Documentation,
    Ownership,
    Trustworthiness,
    Codebase,
    Cost,
    Advisories,
}

impl MetricCategory {
    /// The category's name in capitals, as shown in report headings.
    pub fn as_uppercase_str(self) -> (r: &'static str)
        ensures
            r@ == self.uppercase_name(),
    {
        match self {
            MetricCategory::Metadata => "METADATA",
            MetricCategory::Stability => "STABILITY",
            MetricCategory::Usage => "USAGE",
            MetricCategory::Community => "COMMUNITY",
            MetricCategory::Activity => "ACTIVITY",
            MetricCategory::Documentation => "DOCUMENTATION",
            MetricCategory::Ownership => "OWNERSHIP",
            MetricCategory::Trustworthiness => "TRUSTWORTHINESS",
            MetricCategory::Codebase => "CODEBASE",
            MetricCategory::Cost => "COST",
            MetricCategory::Advisories => "ADVISORIES",
        }
    }

    pub open spec fn uppercase_name(self) -> Seq<char> {
        match self {
            MetricCategory::Metadata => "METADATA"@,
            MetricCategory::Stability => "STABILITY"@,
            MetricCategory::Usage => "USAGE"@,
            MetricCategory::Community => "COMMUNITY"@,
            MetricCategory::Activity => "ACTIVITY"@,
            MetricCategory::Documentation => "DOCUMENTATION"@,
            MetricCategory::Ownership => "OWNERSHIP"@,
            MetricCategory::Trustworthiness => "TRUSTWORTHINESS"@,
            MetricCategory::Codebase => "CODEBASE"@,
            MetricCategory::Cost => "COST"@,
            MetricCategory::Advisories => "ADVISORIES"@,
        }
    }
}

/// A measurable property of a dependency.
#[derive(Debug, Clone, Copy, PartialEq, Eq, Structural, Hash)]
pub enum Metric {
    License,
    Age,
    MinVersion,
    ReleaseCount,
    OverallDownloadCount,
    OneMonthDownloadCount,
    OverallOwnerCount,
    UserOwnerCount,
    TeamOwnerCount,
    DependentCount,
    DirectDependencyCount,
    TransitiveDependencyCount,
    DocCoveragePercentage,
    BrokenDocLinkCount,
    CodeCoveragePercentage,
    FullySafeCode,
    ExampleCount,
    RepoStarCount,
    RepoForkCount,
    RepoSubscriberCount,
    RepoContributorCount,
    CommitActivity,
    OpenIssueCount,
    ClosedIssueCount,
    IssueResponsiveness,
    OpenPullRequestCount,
    ClosedPullRequestCount,
    PullRequestResponsiveness,
    VulnerabilityCount,
    LowVulnerabilityCount,
    MediumVulnerabilityCount,
    HighVulnerabilityCount,
    CriticalVulnerabilityCount,
    WarningCount,
    NoticeWarningCount,
    UnmaintainedWarningCount,
    UnsoundWarningCount,
    YankedWarningCount,
    HistoricalVulnerabilityCount,
    HistoricalLowVulnerabilityCount,
    HistoricalMediumVulnerabilityCount,
    HistoricalHighVulnerabilityCount,
    HistoricalCriticalVulnerabilityCount,
    HistoricalWarningCount,
    HistoricalNoticeWarningCount,
    HistoricalUnmaintainedWarningCount,
    HistoricalUnsoundWarningCount,
    HistoricalYankedWarningCount,
}

impl Metric {
    /// The category each metric is statically assigned to.
    pub open spec fn category_of(self) -> MetricCategory {
        match self {
            Metric::Age | Metric::MinVersion | Metric::ReleaseCount => MetricCategory::Stability,
            Metric::OverallDownloadCount | Metric::OneMonthDownloadCount
            | Metric::DependentCount => MetricCategory::Usage,
            Metric::RepoStarCount | Metric::RepoForkCount | Metric::RepoSubscriberCount
            | Metric::RepoContributorCount => MetricCategory::Community,
            Metric::CommitActivity | Metric::OpenIssueCount | Metric::ClosedIssueCount
            | Metric::IssueResponsiveness | Metric::OpenPullRequestCount
            | Metric::ClosedPullRequestCount
            | Metric::PullRequestResponsiveness => MetricCategory::Activity,
            Metric::DocCoveragePercentage | Metric::BrokenDocLinkCount
            | Metric::ExampleCount => MetricCategory::Documentation,
            Metric::OverallOwnerCount | Metric::UserOwnerCount | Metric::TeamOwnerCount
            | Metric::License => MetricCategory::Ownership,
            Metric::CodeCoveragePercentage | Metric::FullySafeCode => MetricCategory::Trustworthiness,
            Metric::TransitiveDependencyCount | Metric::DirectDependencyCount => MetricCategory::Cost,
            _ => MetricCategory::Advisories,
        }
    }

    /// Returns the category this metric belongs to.
    pub fn category(self) -> (r: MetricCategory)
        ensures
            r == self.category_of(),
    {
        match self {
            Metric::Age | Metric::MinVersion | Metric::ReleaseCount => MetricCategory::Stability,
            Metric::OverallDownloadCount | Metric::OneMonthDownloadCount
            | Metric::DependentCount => MetricCategory::Usage,
            Metric::RepoStarCount | Metric::RepoForkCount | Metric::RepoSubscriberCount
            | Metric::RepoContributorCount => MetricCategory::Community,
            Metric::CommitActivity | Metric::OpenIssueCount | Metric::ClosedIssueCount
            | Metric::IssueResponsiveness | Metric::OpenPullRequestCount
            | Metric::ClosedPullRequestCount
            | Metric::PullRequestResponsiveness => MetricCategory::Activity,
            Metric::DocCoveragePercentage | Metric::BrokenDocLinkCount
            | Metric::ExampleCount => MetricCategory::Documentation,
            Metric::OverallOwnerCount | Metric::UserOwnerCount | Metric::TeamOwnerCount
            | Metric::License => MetricCategory::Ownership,
            Metric::CodeCoveragePercentage | Metric::FullySafeCode => MetricCategory::Trustworthiness,
            Metric::TransitiveDependencyCount | Metric::DirectDependencyCount => MetricCategory::Cost,
            Metric::VulnerabilityCount | Metric::LowVulnerabilityCount
            | Metric::MediumVulnerabilityCount | Metric::HighVulnerabilityCount
            | Metric::CriticalVulnerabilityCount | Metric::WarningCount
            | Metric::NoticeWarningCount | Metric::UnmaintainedWarningCount
            | Metric::UnsoundWarningCount | Metric::YankedWarningCount
            | Metric::HistoricalVulnerabilityCount | Metric::HistoricalLowVulnerabilityCount
            | Metric::HistoricalMediumVulnerabilityCount
            | Metric::HistoricalHighVulnerabilityCount
            | Metric::HistoricalCriticalVulnerabilityCount | Metric::HistoricalWarningCount
            | Metric::HistoricalNoticeWarningCount
            | Metric::HistoricalUnmaintainedWarningCount
            | Metric::HistoricalUnsoundWarningCount
            | Metric::HistoricalYankedWarningCount => MetricCategory::Advisories,
        }
    }
}

} // verus!

verus! {

impl Metric {
    /// The metric's name in configuration files and reports.
    pub open spec fn name_text(self) -> Seq<char> {
        match self {
            Metric::License => "license"@,
            Metric::Age => "age"@,
            Metric::MinVersion => "min_version"@,
            Metric::ReleaseCount => "release_count"@,
            Metric::OverallDownloadCount => "overall_download_count"@,
            Metric::OneMonthDownloadCount => "one_month_download_count"@,
            Metric::OverallOwnerCount => "overall_owner_count"@,
            Metric::UserOwnerCount => "user_owner_count"@,
            Metric::TeamOwnerCount => "team_owner_count"@,
            Metric::DependentCount => "dependent_count"@,
            Metric::DirectDependencyCount => "direct_dependency_count"@,
            Metric::TransitiveDependencyCount => "transitive_dependency_count"@,
            Metric::DocCoveragePercentage => "doc_coverage_percentage"@,
            Metric::BrokenDocLinkCount => "broken_doc_link_count"@,
            Metric::CodeCoveragePercentage => "code_coverage_percentage"@,
            Metric::FullySafeCode => "fully_safe_code"@,
            Metric::ExampleCount => "example_count"@,
            Metric::RepoStarCount => "repo_star_count"@,
            Metric::RepoForkCount => "repo_fork_count"@,
            Metric::RepoSubscriberCount => "repo_subscriber_count"@,
            Metric::RepoContributorCount => "repo_contributor_count"@,
            Metric::CommitActivity => "commit_activity"@,
            Metric::OpenIssueCount => "open_issue_count"@,
            Metric::ClosedIssueCount => "closed_issue_count"@,
            Metric::IssueResponsiveness => "issue_responsiveness"@,
            Metric::OpenPullRequestCount => "open_pull_request_count"@,
            Metric::ClosedPullRequestCount => "closed_pull_request_count"@,
            Metric::PullRequestResponsiveness => "pull_request_responsiveness"@,
            Metric::VulnerabilityCount => "vulnerability_count"@,
            Metric::LowVulnerabilityCount => "low_vulnerability_count"@,
            Metric::MediumVulnerabilityCount => "medium_vulnerability_count"@,
            Metric::HighVulnerabilityCount => "high_vulnerability_count"@,
            Metric::CriticalVulnerabilityCount => "critical_vulnerability_count"@,
            Metric::WarningCount => "warning_count"@,
            Metric::NoticeWarningCount => "notice_warning_count"@,
            Metric::UnmaintainedWarningCount => "unmaintained_warning_count"@,
            Metric::UnsoundWarningCount => "unsound_warning_count"@,
            Metric::YankedWarningCount => "yanked_warning_count"@,
            Metric::HistoricalVulnerabilityCount => "historical_vulnerability_count"@,
            Metric::HistoricalLowVulnerabilityCount => "historical_low_vulnerability_count"@,
            Metric::HistoricalMediumVulnerabilityCount => "historical_medium_vulnerability_count"@,
            Metric::HistoricalHighVulnerabilityCount => "historical_high_vulnerability_count"@,
            Metric::HistoricalCriticalVulnerabilityCount => "historical_critical_vulnerability_count"@,
            Metric::HistoricalWarningCount => "historical_warning_count"@,
            Metric::HistoricalNoticeWarningCount => "historical_notice_warning_count"@,
            Metric::HistoricalUnmaintainedWarningCount => "historical_unmaintained_warning_count"@,
            Metric::HistoricalUnsoundWarningCount => "historical_unsound_warning_count"@,
            Metric::HistoricalYankedWarningCount => "historical_yanked_warning_count"@,
        }
    }

    /// The metric's name in configuration files and reports.
    pub fn name(self) -> (r: &'static str)
        ensures
            r@ == self.name_text(),
    {
        match self {
            Metric::License => "license",
            Metric::Age => "age",
            Metric::MinVersion => "min_version",
            Metric::ReleaseCount => "release_count",
            Metric::OverallDownloadCount => "overall_download_count",
            Metric::OneMonthDownloadCount => "one_month_download_count",
            Metric::OverallOwnerCount => "overall_owner_count",
            Metric::UserOwnerCount => "user_owner_count",
            Metric::TeamOwnerCount => "team_owner_count",
            Metric::DependentCount => "dependent_count",
            Metric::DirectDependencyCount => "direct_dependency_count",
            Metric::TransitiveDependencyCount => "transitive_dependency_count",
            Metric::DocCoveragePercentage => "doc_coverage_percentage",
            Metric::BrokenDocLinkCount => "broken_doc_link_count",
            Metric::CodeCoveragePercentage => "code_coverage_percentage",
            Metric::FullySafeCode => "fully_safe_code",
            Metric::ExampleCount => "example_count",
            Metric::RepoStarCount => "repo_star_count",
            Metric::RepoForkCount => "repo_fork_count",
            Metric::RepoSubscriberCount => "repo_subscriber_count",
            Metric::RepoContributorCount => "repo_contributor_count",
            Metric::CommitActivity => "commit_activity",
            Metric::OpenIssueCount => "open_issue_count",
            Metric::ClosedIssueCount => "closed_issue_count",
            Metric::IssueResponsiveness => "issue_responsiveness",
            Metric::OpenPullRequestCount => "open_pull_request_count",
            Metric::ClosedPullRequestCount => "closed_pull_request_count",
            Metric::PullRequestResponsiveness => "pull_request_responsiveness",
            Metric::VulnerabilityCount => "vulnerability_count",
            Metric::LowVulnerabilityCount => "low_vulnerability_count",
            Metric::MediumVulnerabilityCount => "medium_vulnerability_count",
            Metric::HighVulnerabilityCount => "high_vulnerability_count",
            Metric::CriticalVulnerabilityCount => "critical_vulnerability_count",
            Metric::WarningCount => "warning_count",
            Metric::NoticeWarningCount => "notice_warning_count",
            Metric::UnmaintainedWarningCount => "unmaintained_warning_count",
            Metric::UnsoundWarningCount => "unsound_warning_count",
            Metric::YankedWarningCount => "yanked_warning_count",
            Metric::HistoricalVulnerabilityCount => "historical_vulnerability_count",
            Metric::HistoricalLowVulnerabilityCount => "historical_low_vulnerability_count",
            Metric::HistoricalMediumVulnerabilityCount => "historical_medium_vulnerability_count",
            Metric::HistoricalHighVulnerabilityCount => "historical_high_vulnerability_count",
            Metric::HistoricalCriticalVulnerabilityCount => "historical_critical_vulnerability_count",
            Metric::HistoricalWarningCount => "historical_warning_count",
            Metric::HistoricalNoticeWarningCount => "historical_notice_warning_count",
            Metric::HistoricalUnmaintainedWarningCount => "historical_unmaintained_warning_count",
            Metric::HistoricalUnsoundWarningCount => "historical_unsound_warning_count",
            Metric::HistoricalYankedWarningCount => "historical_yanked_warning_count",
        }
    }
}

} // verus!
