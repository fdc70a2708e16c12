//! Evaluation of the configured policies against a dependency's facts.

use vstd::prelude::*;
use crate::config::Config;
use crate::dependency::DependencyType;
use crate::facts::{AgeStats, CrateFacts, DocMetricState, Owner, OwnerKind};
use crate::metric::Metric;
use crate::policy::{Policy, PolicyKind, license_accepted};
use crate::provider_result::ProviderResult;
use crate::text::{decimal, decimal_text};

verus! {

/// The result of evaluating the policies of one metric. Points are in
/// ten-thousandths of a point: a policy's hundredths times the metric's
/// scaling percentage.
#[derive(Debug, Clone)]
pub enum PolicyOutcome {
    Match(u64, String),
    NoMatch(String),
}

/// A policy outcome with its text as characters.
pub enum OutcomeView {
    Match(u64, Seq<char>),
    NoMatch(Seq<char>),
}

impl View for PolicyOutcome {
    type V = OutcomeView;

    open spec fn view(&self) -> OutcomeView {
        match self {
            PolicyOutcome::Match(p, s) => OutcomeView::Match(*p, s@),
            PolicyOutcome::NoMatch(s) => OutcomeView::NoMatch(s@),
        }
    }
}

/// The measurement a metric is judged on.
#[derive(Debug, Clone, Copy)]
pub enum Observed {
    Count(u64),
    Days(u64),
    Major(u64),
    Flag(bool),
    /// Hundredths of a percent.
    Percent(u32),
    /// The license text is read from the facts.
    License,
    Ages(AgeStats),
    /// When the version was published, in Unix seconds.
    ReleasedAt(i64),
    /// Commits in the last ninety days.
    Commits(u64),
}

pub const SECONDS_PER_DAY: i64 = 86400;

/// The only window, in days, the commit activity metric supports.
pub const COMMIT_WINDOW_DAYS: u32 = 90;

/// The metrics evaluated, in order.
pub open spec fn catalog() -> Seq<Metric> {
    seq![
        Metric::License, Metric::Age, Metric::MinVersion, Metric::ReleaseCount,
        Metric::OverallDownloadCount, Metric::OneMonthDownloadCount, Metric::OverallOwnerCount,
        Metric::TeamOwnerCount, Metric::UserOwnerCount, Metric::DependentCount,
        Metric::DocCoveragePercentage, Metric::BrokenDocLinkCount, Metric::CodeCoveragePercentage,
        Metric::FullySafeCode, Metric::TransitiveDependencyCount, Metric::ExampleCount,
        Metric::RepoContributorCount, Metric::RepoStarCount, Metric::RepoForkCount,
        Metric::RepoSubscriberCount, Metric::CommitActivity, Metric::OpenIssueCount,
        Metric::ClosedIssueCount, Metric::IssueResponsiveness, Metric::OpenPullRequestCount,
        Metric::ClosedPullRequestCount, Metric::PullRequestResponsiveness,
        Metric::VulnerabilityCount, Metric::LowVulnerabilityCount, Metric::MediumVulnerabilityCount,
        Metric::HighVulnerabilityCount, Metric::CriticalVulnerabilityCount, Metric::WarningCount,
        Metric::NoticeWarningCount, Metric::UnmaintainedWarningCount, Metric::UnsoundWarningCount,
        Metric::YankedWarningCount, Metric::HistoricalVulnerabilityCount,
        Metric::HistoricalLowVulnerabilityCount, Metric::HistoricalMediumVulnerabilityCount,
        Metric::HistoricalHighVulnerabilityCount, Metric::HistoricalCriticalVulnerabilityCount,
        Metric::HistoricalWarningCount, Metric::HistoricalNoticeWarningCount,
        Metric::HistoricalUnmaintainedWarningCount, Metric::HistoricalUnsoundWarningCount,
        Metric::HistoricalYankedWarningCount,
    ]
}

/// The metrics evaluated, in order.
pub fn catalog_metrics() -> (r: Vec<Metric>)
    ensures
        r@ == catalog(),
{
    let r = vec![
        Metric::License, Metric::Age, Metric::MinVersion, Metric::ReleaseCount,
        Metric::OverallDownloadCount, Metric::OneMonthDownloadCount, Metric::OverallOwnerCount,
        Metric::TeamOwnerCount, Metric::UserOwnerCount, Metric::DependentCount,
        Metric::DocCoveragePercentage, Metric::BrokenDocLinkCount, Metric::CodeCoveragePercentage,
        Metric::FullySafeCode, Metric::TransitiveDependencyCount, Metric::ExampleCount,
        Metric::RepoContributorCount, Metric::RepoStarCount, Metric::RepoForkCount,
        Metric::RepoSubscriberCount, Metric::CommitActivity, Metric::OpenIssueCount,
        Metric::ClosedIssueCount, Metric::IssueResponsiveness, Metric::OpenPullRequestCount,
        Metric::ClosedPullRequestCount, Metric::PullRequestResponsiveness,
        Metric::VulnerabilityCount, Metric::LowVulnerabilityCount, Metric::MediumVulnerabilityCount,
        Metric::HighVulnerabilityCount, Metric::CriticalVulnerabilityCount, Metric::WarningCount,
        Metric::NoticeWarningCount, Metric::UnmaintainedWarningCount, Metric::UnsoundWarningCount,
        Metric::YankedWarningCount, Metric::HistoricalVulnerabilityCount,
        Metric::HistoricalLowVulnerabilityCount, Metric::HistoricalMediumVulnerabilityCount,
        Metric::HistoricalHighVulnerabilityCount, Metric::HistoricalCriticalVulnerabilityCount,
        Metric::HistoricalWarningCount, Metric::HistoricalNoticeWarningCount,
        Metric::HistoricalUnmaintainedWarningCount, Metric::HistoricalUnsoundWarningCount,
        Metric::HistoricalYankedWarningCount,
    ];
    assert(r@ =~= catalog());
    r
}

/// Which kind of policy judges each metric.
pub open spec fn metric_kind(m: Metric) -> PolicyKind {
    match m {
        Metric::License => PolicyKind::License,
        Metric::Age => PolicyKind::Age,
        Metric::MinVersion => PolicyKind::Version,
        Metric::ReleaseCount | Metric::CommitActivity => PolicyKind::AgedCount,
        Metric::DocCoveragePercentage | Metric::CodeCoveragePercentage => PolicyKind::Percentage,
        Metric::FullySafeCode => PolicyKind::Boolean,
        Metric::IssueResponsiveness | Metric::PullRequestResponsiveness => PolicyKind::Responsiveness,
        Metric::OverallDownloadCount | Metric::OneMonthDownloadCount | Metric::OverallOwnerCount
        | Metric::TeamOwnerCount | Metric::UserOwnerCount | Metric::DependentCount
        | Metric::ExampleCount | Metric::RepoContributorCount | Metric::RepoStarCount
        | Metric::RepoForkCount | Metric::RepoSubscriberCount | Metric::ClosedIssueCount
        | Metric::ClosedPullRequestCount => PolicyKind::MinCount,
        _ => PolicyKind::MaxCount,
    }
}

fn kind_for(m: Metric) -> (r: PolicyKind)
    ensures
        r == metric_kind(m),
{
    match m {
        Metric::License => PolicyKind::License,
        Metric::Age => PolicyKind::Age,
        Metric::MinVersion => PolicyKind::Version,
        Metric::ReleaseCount | Metric::CommitActivity => PolicyKind::AgedCount,
        Metric::DocCoveragePercentage | Metric::CodeCoveragePercentage => PolicyKind::Percentage,
        Metric::FullySafeCode => PolicyKind::Boolean,
        Metric::IssueResponsiveness | Metric::PullRequestResponsiveness => PolicyKind::Responsiveness,
        Metric::OverallDownloadCount | Metric::OneMonthDownloadCount | Metric::OverallOwnerCount
        | Metric::TeamOwnerCount | Metric::UserOwnerCount | Metric::DependentCount
        | Metric::ExampleCount | Metric::RepoContributorCount | Metric::RepoStarCount
        | Metric::RepoForkCount | Metric::RepoSubscriberCount | Metric::ClosedIssueCount
        | Metric::ClosedPullRequestCount => PolicyKind::MinCount,
        _ => PolicyKind::MaxCount,
    }
}

/// Whole days from `from` to `now`, or zero if `from` is not in the past.
pub open spec fn days_between(from: i64, now: i64) -> nat {
    if now - from > 0 { ((now - from) / (SECONDS_PER_DAY as int)) as nat } else { 0 }
}

/// Number of owners of the given kind.
pub open spec fn owners_of_kind(owners: Seq<Owner>, kind: OwnerKind) -> nat
    decreases owners.len(),
{
    if owners.len() == 0 {
        0
    } else {
        owners_of_kind(owners.drop_last(), kind) + if owners.last().kind == kind { 1nat } else { 0nat }
    }
}

/// The measurement for a metric, or `None` when the facts it needs are missing.
pub open spec fn observation(facts: CrateFacts, m: Metric, now: i64) -> Option<Observed> {
    match m {
        Metric::License => if facts.crate_version_data is Found { Some(Observed::License) } else { None },
        Metric::MinVersion => match facts.crate_version_data {
            ProviderResult::Found(d) => Some(Observed::Major(d.version.major)),
            _ => None,
        },
        Metric::ReleaseCount => match facts.crate_version_data {
            ProviderResult::Found(d) => Some(Observed::ReleasedAt(d.created_at)),
            _ => None,
        },
        Metric::Age | Metric::OverallDownloadCount | Metric::OneMonthDownloadCount
        | Metric::OverallOwnerCount | Metric::TeamOwnerCount | Metric::UserOwnerCount
        | Metric::DependentCount => match facts.crate_overall_data {
            ProviderResult::Found(d) => Some(
                match m {
                    Metric::Age => Observed::Days(days_between(d.created_at, now) as u64),
                    Metric::OverallDownloadCount => Observed::Count(d.downloads),
                    Metric::OneMonthDownloadCount => Observed::Count(
                        if d.monthly_downloads@.len() == 0 { 0 } else { d.monthly_downloads@.last().1 },
                    ),
                    Metric::OverallOwnerCount => Observed::Count(d.owners@.len() as u64),
                    Metric::TeamOwnerCount => Observed::Count(owners_of_kind(d.owners@, OwnerKind::Team) as u64),
                    Metric::UserOwnerCount => Observed::Count(owners_of_kind(d.owners@, OwnerKind::User) as u64),
                    _ => Observed::Count(d.dependents),
                },
            ),
            _ => None,
        },
        Metric::DocCoveragePercentage | Metric::BrokenDocLinkCount => match facts.docs_data {
            ProviderResult::Found(d) => match d.metrics {
                DocMetricState::Found(x) => Some(
                    if m == Metric::DocCoveragePercentage {
                        Observed::Percent((x.doc_coverage_percentage as u32 * 100) as u32)
                    } else {
                        Observed::Count(x.broken_doc_links)
                    },
                ),
                _ => None,
            },
            _ => None,
        },
        Metric::CodeCoveragePercentage => match facts.coverage_data {
            ProviderResult::Found(d) => Some(Observed::Percent(d.code_coverage_percentage)),
            _ => None,
        },
        Metric::FullySafeCode | Metric::TransitiveDependencyCount | Metric::ExampleCount => match facts.codebase_data {
            ProviderResult::Found(d) => Some(
                match m {
                    Metric::FullySafeCode => Observed::Flag(d.unsafe_count == 0),
                    Metric::TransitiveDependencyCount => Observed::Count(d.transitive_dependencies),
                    _ => Observed::Count(d.example_count),
                },
            ),
            _ => None,
        },
        Metric::RepoContributorCount | Metric::RepoStarCount | Metric::RepoForkCount
        | Metric::RepoSubscriberCount | Metric::CommitActivity | Metric::OpenIssueCount
        | Metric::ClosedIssueCount | Metric::IssueResponsiveness | Metric::OpenPullRequestCount
        | Metric::ClosedPullRequestCount | Metric::PullRequestResponsiveness => match facts.hosting_data {
            ProviderResult::Found(d) => Some(
                match m {
                    Metric::RepoContributorCount => Observed::Count(d.contributors),
                    Metric::RepoStarCount => Observed::Count(d.stars),
                    Metric::RepoForkCount => Observed::Count(d.forks),
                    Metric::RepoSubscriberCount => Observed::Count(d.subscribers),
                    Metric::CommitActivity => Observed::Commits(d.commits_last_3_months),
                    Metric::OpenIssueCount => Observed::Count(d.issues.open_count),
                    Metric::ClosedIssueCount => Observed::Count(d.issues.closed_count),
                    Metric::IssueResponsiveness => Observed::Ages(d.issues.closed_age),
                    Metric::OpenPullRequestCount => Observed::Count(d.pulls.open_count),
                    Metric::ClosedPullRequestCount => Observed::Count(d.pulls.closed_count),
                    _ => Observed::Ages(d.pulls.closed_age),
                },
            ),
            _ => None,
        },
        Metric::DirectDependencyCount => None,
        _ => match facts.advisory_data {
            ProviderResult::Found(a) => Some(
                Observed::Count(
                    match m {
                        Metric::VulnerabilityCount => a.vulnerability_count,
                        Metric::LowVulnerabilityCount => a.low_vulnerability_count,
                        Metric::MediumVulnerabilityCount => a.medium_vulnerability_count,
                        Metric::HighVulnerabilityCount => a.high_vulnerability_count,
                        Metric::CriticalVulnerabilityCount => a.critical_vulnerability_count,
                        Metric::WarningCount => a.warning_count,
                        Metric::NoticeWarningCount => a.notice_warning_count,
                        Metric::UnmaintainedWarningCount => a.unmaintained_warning_count,
                        Metric::UnsoundWarningCount => a.unsound_warning_count,
                        Metric::YankedWarningCount => a.yanked_warning_count,
                        Metric::HistoricalVulnerabilityCount => a.historical_vulnerability_count,
                        Metric::HistoricalLowVulnerabilityCount => a.historical_low_vulnerability_count,
                        Metric::HistoricalMediumVulnerabilityCount => a.historical_medium_vulnerability_count,
                        Metric::HistoricalHighVulnerabilityCount => a.historical_high_vulnerability_count,
                        Metric::HistoricalCriticalVulnerabilityCount => a.historical_critical_vulnerability_count,
                        Metric::HistoricalWarningCount => a.historical_warning_count,
                        Metric::HistoricalNoticeWarningCount => a.historical_notice_warning_count,
                        Metric::HistoricalUnmaintainedWarningCount => a.historical_unmaintained_warning_count,
                        Metric::HistoricalUnsoundWarningCount => a.historical_unsound_warning_count,
                        _ => a.historical_yanked_warning_count,
                    },
                ),
            ),
            _ => None,
        },
    }
}

/// The license text of the facts, if any.
pub open spec fn license_of(facts: CrateFacts) -> Option<String> {
    match facts.crate_version_data {
        ProviderResult::Found(d) => d.license,
        _ => None,
    }
}

/// Whether a version published at `at` falls within the last `days` days.
pub open spec fn released_within(at: i64, days: u32, now: i64) -> bool {
    at >= now - days * SECONDS_PER_DAY
}

/// Whether a policy's condition holds of the measurement.
pub open spec fn policy_matches(p: Policy, o: Observed, license: Option<String>, now: i64) -> bool {
    match (p, o) {
        (Policy::MinCount(q), Observed::Count(v)) => v >= q.min_count,
        (Policy::MaxCount(q), Observed::Count(v)) => v <= q.max_count,
        (Policy::AgedCount(q), Observed::ReleasedAt(t)) => (if released_within(t, q.max_days, now) { 1int } else { 0int }) >= q.min_count,
        (Policy::AgedCount(q), Observed::Commits(c)) => q.max_days == COMMIT_WINDOW_DAYS && c >= q.min_count,
        (Policy::Age(q), Observed::Days(d)) => d >= q.min_days,
        (Policy::Version(q), Observed::Major(v)) => v >= q.min_major_version,
        (Policy::Boolean(q), Observed::Flag(f)) => f == q.expected,
        (Policy::Percentage(q), Observed::Percent(h)) => h >= q.min_percentage * 100,
        (Policy::License(q), Observed::License) => license is Some && license_accepted(q.allowed(), license->Some_0@),
        (Policy::Responsiveness(q), Observed::Ages(a)) => a.avg <= q.max_average_days && a.p50 <= q.max_p50_days
            && a.p75 <= q.max_p75_days && a.p90 <= q.max_p90_days && a.p95 <= q.max_p95_days,
        _ => false,
    }
}

/// A configured entry takes part in judging `m` for `dt`.
pub open spec fn relevant(entry: (Metric, Policy), m: Metric, dt: DependencyType) -> bool {
    entry.0 == m && entry.1.kind_of() == metric_kind(m) && entry.1.types()@.contains(dt)
}

/// The first policy among the first `n` entries that is relevant and matches.
pub open spec fn first_match(pols: Seq<(Metric, Policy)>, n: int, m: Metric, dt: DependencyType, o: Observed, license: Option<String>, now: i64) -> Option<Policy>
    decreases n,
{
    if n <= 0 {
        None
    } else {
        match first_match(pols, n - 1, m, dt, o, license, now) {
            Some(p) => Some(p),
            None => if relevant(pols[n - 1], m, dt) && policy_matches(pols[n - 1].1, o, license, now) {
                Some(pols[n - 1].1)
            } else {
                None
            },
        }
    }
}

/// How many of the first `n` entries are relevant.
pub open spec fn relevant_count(pols: Seq<(Metric, Policy)>, n: int, m: Metric, dt: DependencyType) -> nat
    decreases n,
{
    if n <= 0 {
        0
    } else {
        relevant_count(pols, n - 1, m, dt) + if relevant(pols[n - 1], m, dt) { 1nat } else { 0nat }
    }
}

/// The metrics where lower is better.
pub open spec fn upper_bounded(m: Metric) -> bool {
    metric_kind(m) == PolicyKind::MaxCount
}

/// The number a policy compares against.
pub open spec fn threshold(p: Policy) -> nat {
    match p {
        Policy::MinCount(q) => q.min_count as nat,
        Policy::MaxCount(q) => q.max_count as nat,
        Policy::AgedCount(q) => q.min_count as nat,
        Policy::Age(q) => q.min_days as nat,
        Policy::Version(q) => q.min_major_version as nat,
        Policy::Percentage(q) => q.min_percentage as nat,
        _ => 0,
    }
}

/// Whether an entry's threshold is cited in the reason for a miss.
pub open spec fn cited(entry: (Metric, Policy), m: Metric, dt: DependencyType) -> bool {
    relevant(entry, m, dt) && (m == Metric::CommitActivity ==> match entry.1 {
        Policy::AgedCount(q) => q.max_days == COMMIT_WINDOW_DAYS,
        _ => false,
    })
}

/// The bound cited in a miss: the smallest threshold of the first `n` cited
/// entries, or the largest for metrics where lower is better; zero if none.
pub open spec fn cited_bound(pols: Seq<(Metric, Policy)>, n: int, m: Metric, dt: DependencyType) -> nat
    decreases n,
{
    if n <= 0 {
        0
    } else {
        let rest = cited_bound(pols, n - 1, m, dt);
        if !cited(pols[n - 1], m, dt) {
            rest
        } else {
            let t = threshold(pols[n - 1].1);
            if exists_cited(pols, n - 1, m, dt) {
                if upper_bounded(m) { if t > rest { t } else { rest } } else { if t < rest { t } else { rest } }
            } else {
                t
            }
        }
    }
}

pub open spec fn exists_cited(pols: Seq<(Metric, Policy)>, n: int, m: Metric, dt: DependencyType) -> bool {
    exists|k: int| 0 <= k < n && #[trigger] cited(pols[k], m, dt)
}

/// The percentage by which a metric's points are scaled: the first entry for
/// the metric at or after `i`, else 100.
pub open spec fn scale_from(scaling: Seq<(Metric, u32)>, i: int, m: Metric) -> u32
    decreases scaling.len() - i,
{
    if i < 0 || i >= scaling.len() {
        100
    } else if scaling[i].0 == m {
        scaling[i].1
    } else {
        scale_from(scaling, i + 1, m)
    }
}

} // verus!

verus! {

pub open spec fn noun(m: Metric) -> Seq<char> {
    match m {
        Metric::OverallDownloadCount => "total downloads"@,
        Metric::OneMonthDownloadCount => "downloads in the last month"@,
        Metric::OverallOwnerCount => "total owners"@,
        Metric::TeamOwnerCount => "team owners"@,
        Metric::UserOwnerCount => "user owners"@,
        Metric::DependentCount => "dependents"@,
        Metric::BrokenDocLinkCount => "broken documentation links"@,
        Metric::TransitiveDependencyCount => "transitive dependencies"@,
        Metric::ExampleCount => "examples"@,
        Metric::RepoContributorCount => "contributors"@,
        Metric::RepoStarCount => "stars"@,
        Metric::RepoForkCount => "forks"@,
        Metric::RepoSubscriberCount => "subscribers"@,
        Metric::OpenIssueCount => "open issues"@,
        Metric::ClosedIssueCount => "closed issues"@,
        Metric::OpenPullRequestCount => "open pull requests"@,
        Metric::ClosedPullRequestCount => "closed pull requests"@,
        Metric::VulnerabilityCount => "vulnerabilities"@,
        Metric::LowVulnerabilityCount => "low severity vulnerabilities"@,
        Metric::MediumVulnerabilityCount => "medium severity vulnerabilities"@,
        Metric::HighVulnerabilityCount => "high severity vulnerabilities"@,
        Metric::CriticalVulnerabilityCount => "critical severity vulnerabilities"@,
        Metric::WarningCount => "warnings"@,
        Metric::NoticeWarningCount => "notice warnings"@,
        Metric::UnmaintainedWarningCount => "unmaintained warnings"@,
        Metric::UnsoundWarningCount => "unsound warnings"@,
        Metric::YankedWarningCount => "yanked warnings"@,
        Metric::HistoricalVulnerabilityCount => "historical vulnerabilities"@,
        Metric::HistoricalLowVulnerabilityCount => "historical low severity vulnerabilities"@,
        Metric::HistoricalMediumVulnerabilityCount => "historical medium severity vulnerabilities"@,
        Metric::HistoricalHighVulnerabilityCount => "historical high severity vulnerabilities"@,
        Metric::HistoricalCriticalVulnerabilityCount => "historical critical severity vulnerabilities"@,
        Metric::HistoricalWarningCount => "historical warnings"@,
        Metric::HistoricalNoticeWarningCount => "historical notice warnings"@,
        Metric::HistoricalUnmaintainedWarningCount => "historical unmaintained warnings"@,
        Metric::HistoricalUnsoundWarningCount => "historical unsound warnings"@,
        Metric::HistoricalYankedWarningCount => "historical yanked warnings"@,
        _ => "items"@,
    }
}

fn noun_str(m: Metric) -> (r: &'static str)
    ensures
        r@ == noun(m),
{
    match m {
        Metric::OverallDownloadCount => "total downloads",
        Metric::OneMonthDownloadCount => "downloads in the last month",
        Metric::OverallOwnerCount => "total owners",
        Metric::TeamOwnerCount => "team owners",
        Metric::UserOwnerCount => "user owners",
        Metric::DependentCount => "dependents",
        Metric::BrokenDocLinkCount => "broken documentation links",
        Metric::TransitiveDependencyCount => "transitive dependencies",
        Metric::ExampleCount => "examples",
        Metric::RepoContributorCount => "contributors",
        Metric::RepoStarCount => "stars",
        Metric::RepoForkCount => "forks",
        Metric::RepoSubscriberCount => "subscribers",
        Metric::OpenIssueCount => "open issues",
        Metric::ClosedIssueCount => "closed issues",
        Metric::OpenPullRequestCount => "open pull requests",
        Metric::ClosedPullRequestCount => "closed pull requests",
        Metric::VulnerabilityCount => "vulnerabilities",
        Metric::LowVulnerabilityCount => "low severity vulnerabilities",
        Metric::MediumVulnerabilityCount => "medium severity vulnerabilities",
        Metric::HighVulnerabilityCount => "high severity vulnerabilities",
        Metric::CriticalVulnerabilityCount => "critical severity vulnerabilities",
        Metric::WarningCount => "warnings",
        Metric::NoticeWarningCount => "notice warnings",
        Metric::UnmaintainedWarningCount => "unmaintained warnings",
        Metric::UnsoundWarningCount => "unsound warnings",
        Metric::YankedWarningCount => "yanked warnings",
        Metric::HistoricalVulnerabilityCount => "historical vulnerabilities",
        Metric::HistoricalLowVulnerabilityCount => "historical low severity vulnerabilities",
        Metric::HistoricalMediumVulnerabilityCount => "historical medium severity vulnerabilities",
        Metric::HistoricalHighVulnerabilityCount => "historical high severity vulnerabilities",
        Metric::HistoricalCriticalVulnerabilityCount => "historical critical severity vulnerabilities",
        Metric::HistoricalWarningCount => "historical warnings",
        Metric::HistoricalNoticeWarningCount => "historical notice warnings",
        Metric::HistoricalUnmaintainedWarningCount => "historical unmaintained warnings",
        Metric::HistoricalUnsoundWarningCount => "historical unsound warnings",
        Metric::HistoricalYankedWarningCount => "historical yanked warnings",
        _ => "items",
    }
}

/// The comparison cited in a miss.
pub open spec fn need_op(m: Metric) -> Seq<char> {
    match m {
        Metric::BrokenDocLinkCount | Metric::TransitiveDependencyCount | Metric::OpenIssueCount
        | Metric::OpenPullRequestCount => "< "@,
        _ => if upper_bounded(m) { "<= "@ } else { ">= "@ },
    }
}

fn need_op_str(m: Metric) -> (r: &'static str)
    ensures
        r@ == need_op(m),
{
    match m {
        Metric::BrokenDocLinkCount | Metric::TransitiveDependencyCount | Metric::OpenIssueCount
        | Metric::OpenPullRequestCount => "< ",
        _ => if kind_for(m) == PolicyKind::MaxCount { "<= " } else { ">= " },
    }
}

pub open spec fn flag_text(f: bool) -> Seq<char> {
    if f { "crate contains no unsafe code"@ } else { "crate contains unsafe code"@ }
}

pub open spec fn quoted_license(license: Option<String>) -> Seq<char> {
    "'"@ + match license { Some(l) => l@, None => "None"@ } + "'"@
}

/// The measurement in words, for counts, days, versions and percentages.
pub open spec fn measure_text(m: Metric, o: Observed) -> Seq<char> {
    match o {
        Observed::Count(v) => decimal_text(v as nat) + " "@ + noun(m),
        Observed::Days(d) => decimal_text(d as nat) + " days"@,
        Observed::Major(v) => "v"@ + decimal_text(v as nat),
        Observed::Percent(h) => if m == Metric::DocCoveragePercentage {
            decimal_text((h / 100) as nat) + "% documentation coverage"@
        } else {
            decimal_text((((h + 5) / 10) / 10) as nat) + "."@ + decimal_text((((h + 5) / 10) % 10) as nat)
                + "% codebase coverage"@
        },
        _ => Seq::empty(),
    }
}

pub open spec fn window_of(p: Policy) -> u32 {
    match p {
        Policy::AgedCount(q) => q.max_days,
        _ => 0,
    }
}

/// The text of a match.
pub open spec fn info_text(m: Metric, o: Observed, p: Policy, license: Option<String>, now: i64) -> Seq<char> {
    match o {
        Observed::Commits(c) => decimal_text(c as nat) + " commits in last "@ + decimal_text(window_of(p) as nat) + " days"@,
        Observed::ReleasedAt(t) => decimal_text(if released_within(t, window_of(p), now) { 1nat } else { 0nat })
            + " releases in "@ + decimal_text(window_of(p) as nat) + " days"@,
        Observed::Flag(f) => flag_text(f),
        Observed::License => quoted_license(license),
        Observed::Ages(_) => "sufficiently responsive"@,
        _ => measure_text(m, o),
    }
}

/// The text of a miss, citing the bound.
pub open spec fn reason_text(m: Metric, o: Observed, bound: nat, license: Option<String>) -> Seq<char> {
    match o {
        Observed::Commits(c) => decimal_text(c as nat) + " commits in last 90 days (need >= "@ + decimal_text(bound) + ")"@,
        Observed::ReleasedAt(_) => "insufficient recent releases"@,
        Observed::Flag(f) => flag_text(f),
        Observed::License => quoted_license(license) + "; not a supported license type"@,
        Observed::Ages(_) => "insufficiently responsive"@,
        Observed::Major(_) => measure_text(m, o) + " (need >= v"@ + decimal_text(bound) + ")"@,
        _ => measure_text(m, o) + " (need "@ + need_op(m) + decimal_text(bound)
            + (if m == Metric::DocCoveragePercentage { "%"@ } else if m == Metric::CodeCoveragePercentage { ".0%"@ } else { Seq::empty() })
            + ")"@,
    }
}

/// The outcome for one metric, or `None` when its facts are missing.
pub open spec fn outcome_of(config: Config, facts: CrateFacts, dt: DependencyType, now: i64, m: Metric) -> Option<OutcomeView> {
    match observation(facts, m, now) {
        None => None,
        Some(o) => {
            let pols = config.policies@;
            let lic = license_of(facts);
            match first_match(pols, pols.len() as int, m, dt, o, lic, now) {
                Some(p) => Some(OutcomeView::Match(
                    (p.points_of() as nat * scale_from(config.metric_scaling@, 0, m) as nat) as u64,
                    info_text(m, o, p, lic, now),
                )),
                None => if relevant_count(pols, pols.len() as int, m, dt) == 0 {
                    Some(OutcomeView::NoMatch("no policy defined"@))
                } else {
                    Some(OutcomeView::NoMatch(reason_text(m, o, cited_bound(pols, pols.len() as int, m, dt), lic)))
                },
            }
        },
    }
}

} // verus!

verus! {

fn count_owners(owners: &Vec<Owner>, kind: OwnerKind) -> (r: u64)
    ensures
        r as nat == owners_of_kind(owners@, kind),
{
    let mut n: u64 = 0;
    let mut i: usize = 0;
    while i < owners.len()
        invariant
            i <= owners.len(),
            n as nat == owners_of_kind(owners@.subrange(0, i as int), kind),
            n <= i,
        decreases owners.len() - i,
    {
        assert(owners@.subrange(0, i + 1).drop_last() =~= owners@.subrange(0, i as int));
        if owners[i].kind == kind {
            n = n + 1;
        }
        i = i + 1;
    }
    assert(owners@.subrange(0, owners.len() as int) =~= owners@);
    n
}

fn days_since(from: i64, now: i64) -> (r: u64)
    ensures
        r as nat == days_between(from, now),
{
    let diff: i128 = now as i128 - from as i128;
    if diff > 0 {
        (diff / 86400) as u64
    } else {
        0
    }
}

/// The measurement for a metric, or `None` when the facts it needs are missing.
pub fn observe(facts: &CrateFacts, m: Metric, now: i64) -> (r: Option<Observed>)
    ensures
        r == observation(*facts, m, now),
{
    match m {
        Metric::License => match &facts.crate_version_data {
            ProviderResult::Found(_) => Some(Observed::License),
            _ => None,
        },
        Metric::MinVersion => match &facts.crate_version_data {
            ProviderResult::Found(d) => Some(Observed::Major(d.version.major)),
            _ => None,
        },
        Metric::ReleaseCount => match &facts.crate_version_data {
            ProviderResult::Found(d) => Some(Observed::ReleasedAt(d.created_at)),
            _ => None,
        },
        Metric::Age | Metric::OverallDownloadCount | Metric::OneMonthDownloadCount
        | Metric::OverallOwnerCount | Metric::TeamOwnerCount | Metric::UserOwnerCount
        | Metric::DependentCount => match &facts.crate_overall_data {
            ProviderResult::Found(d) => Some(
                match m {
                    Metric::Age => Observed::Days(days_since(d.created_at, now)),
                    Metric::OverallDownloadCount => Observed::Count(d.downloads),
                    Metric::OneMonthDownloadCount => Observed::Count(
                        if d.monthly_downloads.len() == 0 { 0 } else { d.monthly_downloads[d.monthly_downloads.len() - 1].1 },
                    ),
                    Metric::OverallOwnerCount => Observed::Count(d.owners.len() as u64),
                    Metric::TeamOwnerCount => Observed::Count(count_owners(&d.owners, OwnerKind::Team)),
                    Metric::UserOwnerCount => Observed::Count(count_owners(&d.owners, OwnerKind::User)),
                    _ => Observed::Count(d.dependents),
                },
            ),
            _ => None,
        },
        Metric::DocCoveragePercentage | Metric::BrokenDocLinkCount => match &facts.docs_data {
            ProviderResult::Found(d) => match &d.metrics {
                DocMetricState::Found(x) => Some(
                    if m == Metric::DocCoveragePercentage {
                        Observed::Percent(x.doc_coverage_percentage as u32 * 100)
                    } else {
                        Observed::Count(x.broken_doc_links)
                    },
                ),
                _ => None,
            },
            _ => None,
        },
        Metric::CodeCoveragePercentage => match &facts.coverage_data {
            ProviderResult::Found(d) => Some(Observed::Percent(d.code_coverage_percentage)),
            _ => None,
        },
        Metric::FullySafeCode | Metric::TransitiveDependencyCount | Metric::ExampleCount => match &facts.codebase_data {
            ProviderResult::Found(d) => Some(
                match m {
                    Metric::FullySafeCode => Observed::Flag(d.unsafe_count == 0),
                    Metric::TransitiveDependencyCount => Observed::Count(d.transitive_dependencies),
                    _ => Observed::Count(d.example_count),
                },
            ),
            _ => None,
        },
        Metric::RepoContributorCount | Metric::RepoStarCount | Metric::RepoForkCount
        | Metric::RepoSubscriberCount | Metric::CommitActivity | Metric::OpenIssueCount
        | Metric::ClosedIssueCount | Metric::IssueResponsiveness | Metric::OpenPullRequestCount
        | Metric::ClosedPullRequestCount | Metric::PullRequestResponsiveness => match &facts.hosting_data {
            ProviderResult::Found(d) => Some(
                match m {
                    Metric::RepoContributorCount => Observed::Count(d.contributors),
                    Metric::RepoStarCount => Observed::Count(d.stars),
                    Metric::RepoForkCount => Observed::Count(d.forks),
                    Metric::RepoSubscriberCount => Observed::Count(d.subscribers),
                    Metric::CommitActivity => Observed::Commits(d.commits_last_3_months),
                    Metric::OpenIssueCount => Observed::Count(d.issues.open_count),
                    Metric::ClosedIssueCount => Observed::Count(d.issues.closed_count),
                    Metric::IssueResponsiveness => Observed::Ages(d.issues.closed_age),
                    Metric::OpenPullRequestCount => Observed::Count(d.pulls.open_count),
                    Metric::ClosedPullRequestCount => Observed::Count(d.pulls.closed_count),
                    _ => Observed::Ages(d.pulls.closed_age),
                },
            ),
            _ => None,
        },
        Metric::DirectDependencyCount => None,
        _ => match &facts.advisory_data {
            ProviderResult::Found(a) => Some(
                Observed::Count(
                    match m {
                        Metric::VulnerabilityCount => a.vulnerability_count,
                        Metric::LowVulnerabilityCount => a.low_vulnerability_count,
                        Metric::MediumVulnerabilityCount => a.medium_vulnerability_count,
                        Metric::HighVulnerabilityCount => a.high_vulnerability_count,
                        Metric::CriticalVulnerabilityCount => a.critical_vulnerability_count,
                        Metric::WarningCount => a.warning_count,
                        Metric::NoticeWarningCount => a.notice_warning_count,
                        Metric::UnmaintainedWarningCount => a.unmaintained_warning_count,
                        Metric::UnsoundWarningCount => a.unsound_warning_count,
                        Metric::YankedWarningCount => a.yanked_warning_count,
                        Metric::HistoricalVulnerabilityCount => a.historical_vulnerability_count,
                        Metric::HistoricalLowVulnerabilityCount => a.historical_low_vulnerability_count,
                        Metric::HistoricalMediumVulnerabilityCount => a.historical_medium_vulnerability_count,
                        Metric::HistoricalHighVulnerabilityCount => a.historical_high_vulnerability_count,
                        Metric::HistoricalCriticalVulnerabilityCount => a.historical_critical_vulnerability_count,
                        Metric::HistoricalWarningCount => a.historical_warning_count,
                        Metric::HistoricalNoticeWarningCount => a.historical_notice_warning_count,
                        Metric::HistoricalUnmaintainedWarningCount => a.historical_unmaintained_warning_count,
                        Metric::HistoricalUnsoundWarningCount => a.historical_unsound_warning_count,
                        _ => a.historical_yanked_warning_count,
                    },
                ),
            ),
            _ => None,
        },
    }
}

fn is_released_within(at: i64, days: u32, now: i64) -> (r: bool)
    ensures
        r == released_within(at, days, now),
{
    (at as i128) >= (now as i128) - (days as i128) * 86400
}

fn policy_holds(p: &Policy, o: Observed, facts: &CrateFacts, now: i64) -> (r: bool)
    ensures
        r == policy_matches(*p, o, license_of(*facts), now),
{
    match (p, o) {
        (Policy::MinCount(q), Observed::Count(v)) => v >= q.min_count as u64,
        (Policy::MaxCount(q), Observed::Count(v)) => v <= q.max_count as u64,
        (Policy::AgedCount(q), Observed::ReleasedAt(t)) => {
            let n: u32 = if is_released_within(t, q.max_days, now) { 1 } else { 0 };
            n >= q.min_count
        },
        (Policy::AgedCount(q), Observed::Commits(c)) => q.max_days == COMMIT_WINDOW_DAYS && c >= q.min_count as u64,
        (Policy::Age(q), Observed::Days(d)) => d >= q.min_days as u64,
        (Policy::Version(q), Observed::Major(v)) => v >= q.min_major_version as u64,
        (Policy::Boolean(q), Observed::Flag(f)) => f == q.expected,
        (Policy::Percentage(q), Observed::Percent(h)) => h >= q.min_percentage as u32 * 100,
        (Policy::License(q), Observed::License) => match &facts.crate_version_data {
            ProviderResult::Found(d) => match &d.license {
                Some(l) => q.check_license(l.as_str()),
                None => false,
            },
            _ => false,
        },
        (Policy::Responsiveness(q), Observed::Ages(a)) => a.avg <= q.max_average_days && a.p50 <= q.max_p50_days
            && a.p75 <= q.max_p75_days && a.p90 <= q.max_p90_days && a.p95 <= q.max_p95_days,
        _ => false,
    }
}

fn cat(a: String, b: &str) -> (r: String)
    ensures
        r@ == a@ + b@,
{
    let mut a = a;
    a.append(b);
    a
}

fn quote_license(facts: &CrateFacts) -> (r: String)
    ensures
        r@ == quoted_license(license_of(*facts)),
{
    let inner = match &facts.crate_version_data {
        ProviderResult::Found(d) => match &d.license {
            Some(l) => l.as_str(),
            None => "None",
        },
        _ => "None",
    };
    cat(cat(String::from_str("'"), inner), "'")
}

fn measure(m: Metric, o: Observed) -> (r: String)
    ensures
        r@ == measure_text(m, o),
{
    match o {
        Observed::Count(v) => cat(cat(decimal(v), " "), noun_str(m)),
        Observed::Days(d) => cat(decimal(d), " days"),
        Observed::Major(v) => {
            let mut s = String::from_str("v");
            let d = decimal(v);
            s.append(d.as_str());
            s
        },
        Observed::Percent(h) => if m == Metric::DocCoveragePercentage {
            cat(decimal((h / 100) as u64), "% documentation coverage")
        } else {
            let tenths: u64 = (h as u64 + 5) / 10;
            let frac = decimal(tenths % 10);
            cat(cat(cat(decimal(tenths / 10), "."), frac.as_str()), "% codebase coverage")
        },
        _ => String::new(),
    }
}

fn window(p: &Policy) -> (r: u32)
    ensures
        r == window_of(*p),
{
    match p {
        Policy::AgedCount(q) => q.max_days,
        _ => 0,
    }
}

fn info(m: Metric, o: Observed, p: &Policy, facts: &CrateFacts, now: i64) -> (r: String)
    ensures
        r@ == info_text(m, o, *p, license_of(*facts), now),
{
    match o {
        Observed::Commits(c) => {
            let w = decimal(window(p) as u64);
            cat(cat(cat(decimal(c), " commits in last "), w.as_str()), " days")
        },
        Observed::ReleasedAt(t) => {
            let n: u64 = if is_released_within(t, window(p), now) { 1 } else { 0 };
            let w = decimal(window(p) as u64);
            cat(cat(cat(decimal(n), " releases in "), w.as_str()), " days")
        },
        Observed::Flag(f) => if f {
            String::from_str("crate contains no unsafe code")
        } else {
            String::from_str("crate contains unsafe code")
        },
        Observed::License => quote_license(facts),
        Observed::Ages(_) => String::from_str("sufficiently responsive"),
        _ => measure(m, o),
    }
}

fn reason(m: Metric, o: Observed, bound: u64, facts: &CrateFacts) -> (r: String)
    ensures
        r@ == reason_text(m, o, bound as nat, license_of(*facts)),
{
    let b = decimal(bound);
    match o {
        Observed::Commits(c) => cat(cat(cat(decimal(c), " commits in last 90 days (need >= "), b.as_str()), ")"),
        Observed::ReleasedAt(_) => String::from_str("insufficient recent releases"),
        Observed::Flag(f) => if f {
            String::from_str("crate contains no unsafe code")
        } else {
            String::from_str("crate contains unsafe code")
        },
        Observed::License => cat(quote_license(facts), "; not a supported license type"),
        Observed::Ages(_) => String::from_str("insufficiently responsive"),
        Observed::Major(_) => cat(cat(cat(measure(m, o), " (need >= v"), b.as_str()), ")"),
        _ => {
            let unit = if m == Metric::DocCoveragePercentage {
                "%"
            } else if m == Metric::CodeCoveragePercentage {
                ".0%"
            } else {
                ""
            };
            proof {
                reveal_strlit("");
            }
            cat(cat(cat(cat(cat(measure(m, o), " (need "), need_op_str(m)), b.as_str()), unit), ")")
        },
    }
}

proof fn lemma_first_match_stays(pols: Seq<(Metric, Policy)>, i: int, n: int, m: Metric, dt: DependencyType, o: Observed, license: Option<String>, now: i64)
    requires
        0 <= i <= n,
        first_match(pols, i, m, dt, o, license, now) is Some,
    ensures
        first_match(pols, n, m, dt, o, license, now) == first_match(pols, i, m, dt, o, license, now),
    decreases n - i,
{
    if n > i {
        lemma_first_match_stays(pols, i, n - 1, m, dt, o, license, now);
    }
}

proof fn lemma_cited_exists(pols: Seq<(Metric, Policy)>, i: int, m: Metric, dt: DependencyType)
    requires
        0 <= i < pols.len(),
    ensures
        exists_cited(pols, i + 1, m, dt) == (exists_cited(pols, i, m, dt) || cited(pols[i], m, dt)),
{
    if cited(pols[i], m, dt) {
        assert(cited(pols[i], m, dt));
    }
    if exists_cited(pols, i + 1, m, dt) {
        let k = choose|k: int| 0 <= k < i + 1 && #[trigger] cited(pols[k], m, dt);
        if k < i {
            assert(exists_cited(pols, i, m, dt));
        }
    }
}

/// The scaling percentage configured for a metric.
fn scale_for(scaling: &Vec<(Metric, u32)>, m: Metric) -> (r: u32)
    ensures
        r == scale_from(scaling@, 0, m),
{
    let mut i: usize = 0;
    while i < scaling.len()
        invariant
            i <= scaling.len(),
            scale_from(scaling@, 0, m) == scale_from(scaling@, i as int, m),
        decreases scaling.len() - i,
    {
        if scaling[i].0 == m {
            return scaling[i].1;
        }
        i = i + 1;
    }
    100
}

/// Evaluates the policies of one metric: the first relevant policy that
/// matches gives its scaled points; otherwise the miss cites the measurement.
pub fn evaluate_metric(config: &Config, facts: &CrateFacts, dt: DependencyType, now: i64, m: Metric) -> (r: Option<PolicyOutcome>)
    ensures
        match r {
            None => outcome_of(*config, *facts, dt, now, m) is None,
            Some(out) => outcome_of(*config, *facts, dt, now, m) == Some(out@),
        },
{
    let o = match observe(facts, m, now) {
        None => return None,
        Some(o) => o,
    };
    let ghost lic = license_of(*facts);
    let ghost pols = config.policies@;
    let kind = kind_for(m);
    let mut count: u64 = 0;
    let mut bound: u64 = 0;
    let mut any_cited = false;
    let mut i: usize = 0;
    while i < config.policies.len()
        invariant
            pols == config.policies@,
            observation(*facts, m, now) == Some(o),
            kind == metric_kind(m),
            i <= pols.len(),
            first_match(pols, i as int, m, dt, o, lic, now) is None,
            count as nat == relevant_count(pols, i as int, m, dt),
            count <= i,
            bound as nat == cited_bound(pols, i as int, m, dt),
            any_cited == exists_cited(pols, i as int, m, dt),
            lic == license_of(*facts),
        decreases pols.len() - i,
    {
        let entry = &config.policies[i];
        proof {
            lemma_cited_exists(pols, i as int, m, dt);
        }
        if entry.0 == m && entry.1.kind() == kind && entry.1.dependency_types().contains(dt) {
            count = count + 1;
            let is_cited = match &entry.1 {
                Policy::AgedCount(q) => m != Metric::CommitActivity || q.max_days == COMMIT_WINDOW_DAYS,
                _ => m != Metric::CommitActivity,
            };
            if is_cited {
                let t: u64 = match &entry.1 {
                    Policy::MinCount(q) => q.min_count as u64,
                    Policy::MaxCount(q) => q.max_count as u64,
                    Policy::AgedCount(q) => q.min_count as u64,
                    Policy::Age(q) => q.min_days as u64,
                    Policy::Version(q) => q.min_major_version as u64,
                    Policy::Percentage(q) => q.min_percentage as u64,
                    _ => 0,
                };
                if !any_cited {
                    bound = t;
                } else if kind == PolicyKind::MaxCount {
                    if t > bound {
                        bound = t;
                    }
                } else if t < bound {
                    bound = t;
                }
                any_cited = true;
            }
            if policy_holds(&entry.1, o, facts, now) {
                proof {
                    lemma_first_match_stays(pols, i + 1, pols.len() as int, m, dt, o, lic, now);
                }
                let scale = scale_for(&config.metric_scaling, m);
                let base: u64 = entry.1.points() as u64;
                let factor: u64 = scale as u64;
                assert(base * factor <= u64::MAX) by (nonlinear_arith)
                    requires
                        base <= u32::MAX,
                        factor <= u32::MAX,
                ;
                let points: u64 = base * factor;
                return Some(PolicyOutcome::Match(points, info(m, o, &entry.1, facts, now)));
            }
        }
        i = i + 1;
    }
    if count == 0 {
        Some(PolicyOutcome::NoMatch(String::from_str("no policy defined")))
    } else {
        Some(PolicyOutcome::NoMatch(reason(m, o, bound, facts)))
    }
}

} // verus!

verus! {

/// The outcomes of the first `n` metrics of the catalog, skipping those whose
/// facts are missing.
pub open spec fn outcomes_upto(config: Config, facts: CrateFacts, dt: DependencyType, now: i64, n: int) -> Seq<(Metric, OutcomeView)>
    decreases n,
{
    if n <= 0 {
        Seq::empty()
    } else {
        let prev = outcomes_upto(config, facts, dt, now, n - 1);
        match outcome_of(config, facts, dt, now, catalog()[n - 1]) {
            Some(v) => prev.push((catalog()[n - 1], v)),
            None => prev,
        }
    }
}

/// The outcome of every metric whose facts are present, in catalog order.
pub open spec fn outcomes(config: Config, facts: CrateFacts, dt: DependencyType, now: i64) -> Seq<(Metric, OutcomeView)> {
    outcomes_upto(config, facts, dt, now, catalog().len() as int)
}

pub open spec fn details_view(d: Seq<(Metric, PolicyOutcome)>) -> Seq<(Metric, OutcomeView)> {
    d.map_values(|e: (Metric, PolicyOutcome)| (e.0, e.1@))
}

/// Calculates the outcome of every metric of the catalog for a dependency.
/// `now` is the time of the run, in Unix seconds.
pub fn calculate(config: &Config, facts: &CrateFacts, dependency_type: DependencyType, now: i64) -> (r: Vec<(Metric, PolicyOutcome)>)
    ensures
        details_view(r@) == outcomes(*config, *facts, dependency_type, now),
        r@.len() <= 64,
{
    let metrics = catalog_metrics();
    let mut r: Vec<(Metric, PolicyOutcome)> = Vec::new();
    let mut i: usize = 0;
    while i < metrics.len()
        invariant
            metrics@ == catalog(),
            i <= metrics.len(),
            details_view(r@) == outcomes_upto(*config, *facts, dependency_type, now, i as int),
            r@.len() <= i,
            metrics@.len() <= 64,
        decreases metrics.len() - i,
    {
        let m = metrics[i];
        match evaluate_metric(config, facts, dependency_type, now, m) {
            Some(out) => {
                r.push((m, out));
                assert(details_view(r@) =~= outcomes_upto(*config, *facts, dependency_type, now, i as int).push((m, out@)));
            },
            None => {},
        }
        i = i + 1;
    }
    r
}

} // verus!
