//! Bucketing of security advisories into per-dependency counts.

use vstd::prelude::*;
use crate::crate_spec::CrateSpec;
use crate::provider_result::ProviderResult;
use crate::text::text_eq;

verus! {

/// The kind of an informational advisory.
#[derive(Debug, Clone, Copy, PartialEq, Eq, Structural)]
pub enum Informational {
    Notice,
    Unmaintained,
    Unsound,
    Other,
}

/// Severity rating of a vulnerability.
#[derive(Debug, Clone, Copy, PartialEq, Eq, Structural)]
pub enum Severity {
    NoImpact,
    Low,
    Medium,
    High,
    Critical,
}

/// What the counting needs to know of one advisory: the package it concerns,
/// its informational kind if it is a warning, and its severity if rated.
#[derive(Debug, Clone)]
pub struct AdvisoryRecord {
    pub package: String,
    pub informational: Option<Informational>,
    pub severity: Option<Severity>,
}

/// One bucket set: warnings by kind and vulnerabilities by severity.
#[derive(Debug, Clone, Copy, PartialEq, Eq, Structural, Default)]
pub struct AdvisoryCounts {
    pub warnings: u64,
    pub notice: u64,
    pub unmaintained: u64,
    pub unsound: u64,
    pub yanked: u64,
    pub vulnerabilities: u64,
    pub low: u64,
    pub medium: u64,
    pub high: u64,
    pub critical: u64,
}

/// Adds one, stopping at the largest value.
pub open spec fn bump(x: u64) -> u64 {
    if x < u64::MAX { (x + 1) as u64 } else { x }
}

/// The counts after one more advisory is bucketed: a warning goes to the
/// warning total and to its kind; anything else is a vulnerability, counted
/// in the total and under its severity when it has one.
pub open spec fn counted(c: AdvisoryCounts, a: AdvisoryRecord) -> AdvisoryCounts {
    match a.informational {
        Some(kind) => AdvisoryCounts {
            warnings: bump(c.warnings),
            notice: if kind == Informational::Notice { bump(c.notice) } else { c.notice },
            unmaintained: if kind == Informational::Unmaintained { bump(c.unmaintained) } else { c.unmaintained },
            unsound: if kind == Informational::Unsound { bump(c.unsound) } else { c.unsound },
            ..c
        },
        None => AdvisoryCounts {
            vulnerabilities: bump(c.vulnerabilities),
            low: if a.severity == Some(Severity::Low) { bump(c.low) } else { c.low },
            medium: if a.severity == Some(Severity::Medium) { bump(c.medium) } else { c.medium },
            high: if a.severity == Some(Severity::High) { bump(c.high) } else { c.high },
            critical: if a.severity == Some(Severity::Critical) { bump(c.critical) } else { c.critical },
            ..c
        },
    }
}

/// Advisory counts for one version of a crate, and over the crate's history.
#[derive(Debug, Clone, Copy, Default)]
pub struct AdvisoryData {
    pub timestamp: i64,
    pub vulnerability_count: u64,
    pub low_vulnerability_count: u64,
    pub medium_vulnerability_count: u64,
    pub high_vulnerability_count: u64,
    pub critical_vulnerability_count: u64,
    pub warning_count: u64,
    pub notice_warning_count: u64,
    pub unmaintained_warning_count: u64,
    pub unsound_warning_count: u64,
    pub yanked_warning_count: u64,
    pub historical_vulnerability_count: u64,
    pub historical_low_vulnerability_count: u64,
    pub historical_medium_vulnerability_count: u64,
    pub historical_high_vulnerability_count: u64,
    pub historical_critical_vulnerability_count: u64,
    pub historical_warning_count: u64,
    pub historical_notice_warning_count: u64,
    pub historical_unmaintained_warning_count: u64,
    pub historical_unsound_warning_count: u64,
    pub historical_yanked_warning_count: u64,
}

impl AdvisoryData {
    /// All counts zero.
    pub fn zero(timestamp: i64) -> (r: AdvisoryData)
        ensures
            r == zero_data(timestamp),
    {
        AdvisoryData {
            timestamp,
            vulnerability_count: 0,
            low_vulnerability_count: 0,
            medium_vulnerability_count: 0,
            high_vulnerability_count: 0,
            critical_vulnerability_count: 0,
            warning_count: 0,
            notice_warning_count: 0,
            unmaintained_warning_count: 0,
            unsound_warning_count: 0,
            yanked_warning_count: 0,
            historical_vulnerability_count: 0,
            historical_low_vulnerability_count: 0,
            historical_medium_vulnerability_count: 0,
            historical_high_vulnerability_count: 0,
            historical_critical_vulnerability_count: 0,
            historical_warning_count: 0,
            historical_notice_warning_count: 0,
            historical_unmaintained_warning_count: 0,
            historical_unsound_warning_count: 0,
            historical_yanked_warning_count: 0,
        }
    }

    /// The version-specific buckets.
    pub open spec fn for_version(&self) -> AdvisoryCounts {
        AdvisoryCounts {
            warnings: self.warning_count,
            notice: self.notice_warning_count,
            unmaintained: self.unmaintained_warning_count,
            unsound: self.unsound_warning_count,
            yanked: self.yanked_warning_count,
            vulnerabilities: self.vulnerability_count,
            low: self.low_vulnerability_count,
            medium: self.medium_vulnerability_count,
            high: self.high_vulnerability_count,
            critical: self.critical_vulnerability_count,
        }
    }

    /// The historical buckets.
    pub open spec fn historical(&self) -> AdvisoryCounts {
        AdvisoryCounts {
            warnings: self.historical_warning_count,
            notice: self.historical_notice_warning_count,
            unmaintained: self.historical_unmaintained_warning_count,
            unsound: self.historical_unsound_warning_count,
            yanked: self.historical_yanked_warning_count,
            vulnerabilities: self.historical_vulnerability_count,
            low: self.historical_low_vulnerability_count,
            medium: self.historical_medium_vulnerability_count,
            high: self.historical_high_vulnerability_count,
            critical: self.historical_critical_vulnerability_count,
        }
    }

    /// Counts an advisory that affects this version.
    pub fn count_advisory_for_version(&mut self, advisory: &AdvisoryRecord)
        ensures
            final(self).for_version() == counted(old(self).for_version(), *advisory),
            final(self).historical() == old(self).historical(),
            final(self).timestamp == old(self).timestamp,
    {
        let c = Self::apply_advisory_counts(advisory, AdvisoryCounts {
            warnings: self.warning_count,
            notice: self.notice_warning_count,
            unmaintained: self.unmaintained_warning_count,
            unsound: self.unsound_warning_count,
            yanked: self.yanked_warning_count,
            vulnerabilities: self.vulnerability_count,
            low: self.low_vulnerability_count,
            medium: self.medium_vulnerability_count,
            high: self.high_vulnerability_count,
            critical: self.critical_vulnerability_count,
        });
        self.warning_count = c.warnings;
        self.notice_warning_count = c.notice;
        self.unmaintained_warning_count = c.unmaintained;
        self.unsound_warning_count = c.unsound;
        self.yanked_warning_count = c.yanked;
        self.vulnerability_count = c.vulnerabilities;
        self.low_vulnerability_count = c.low;
        self.medium_vulnerability_count = c.medium;
        self.high_vulnerability_count = c.high;
        self.critical_vulnerability_count = c.critical;
    }

    /// Counts an advisory against the crate's history.
    pub fn count_advisory_historical(&mut self, advisory: &AdvisoryRecord)
        ensures
            final(self).historical() == counted(old(self).historical(), *advisory),
            final(self).for_version() == old(self).for_version(),
            final(self).timestamp == old(self).timestamp,
    {
        let c = Self::apply_advisory_counts(advisory, AdvisoryCounts {
            warnings: self.historical_warning_count,
            notice: self.historical_notice_warning_count,
            unmaintained: self.historical_unmaintained_warning_count,
            unsound: self.historical_unsound_warning_count,
            yanked: self.historical_yanked_warning_count,
            vulnerabilities: self.historical_vulnerability_count,
            low: self.historical_low_vulnerability_count,
            medium: self.historical_medium_vulnerability_count,
            high: self.historical_high_vulnerability_count,
            critical: self.historical_critical_vulnerability_count,
        });
        self.historical_warning_count = c.warnings;
        self.historical_notice_warning_count = c.notice;
        self.historical_unmaintained_warning_count = c.unmaintained;
        self.historical_unsound_warning_count = c.unsound;
        self.historical_yanked_warning_count = c.yanked;
        self.historical_vulnerability_count = c.vulnerabilities;
        self.historical_low_vulnerability_count = c.low;
        self.historical_medium_vulnerability_count = c.medium;
        self.historical_high_vulnerability_count = c.high;
        self.historical_critical_vulnerability_count = c.critical;
    }

    /// Buckets one advisory into a set of counts.
    pub fn apply_advisory_counts(advisory: &AdvisoryRecord, counts: AdvisoryCounts) -> (r: AdvisoryCounts)
        ensures
            r == counted(counts, *advisory),
    {
        let mut c = counts;
        match advisory.informational {
            Some(kind) => {
                c.warnings = c.warnings.saturating_add(1);
                match kind {
                    Informational::Notice => c.notice = c.notice.saturating_add(1),
                    Informational::Unmaintained => c.unmaintained = c.unmaintained.saturating_add(1),
                    Informational::Unsound => c.unsound = c.unsound.saturating_add(1),
                    Informational::Other => {},
                }
            },
            None => {
                c.vulnerabilities = c.vulnerabilities.saturating_add(1);
                match advisory.severity {
                    Some(Severity::Low) => c.low = c.low.saturating_add(1),
                    Some(Severity::Medium) => c.medium = c.medium.saturating_add(1),
                    Some(Severity::High) => c.high = c.high.saturating_add(1),
                    Some(Severity::Critical) => c.critical = c.critical.saturating_add(1),
                    _ => {},
                }
            },
        }
        c
    }
}

impl AdvisoryCounts {
    pub open spec fn zero_spec() -> AdvisoryCounts {
        AdvisoryCounts {
            warnings: 0,
            notice: 0,
            unmaintained: 0,
            unsound: 0,
            yanked: 0,
            vulnerabilities: 0,
            low: 0,
            medium: 0,
            high: 0,
            critical: 0,
        }
    }
}

} // verus!

verus! {

/// The counts for one dependency after the first `n` advisories: every
/// advisory for its package counts historically, and those that affect its
/// version (`affects[j]`) also count for the version.
pub open spec fn scanned(records: Seq<AdvisoryRecord>, affects: Seq<bool>, name: Seq<char>, n: int, start: AdvisoryData) -> AdvisoryData
    decreases n,
{
    if n <= 0 {
        start
    } else {
        let prev = scanned(records, affects, name, n - 1, start);
        let a = records[n - 1];
        if a.package@ != name {
            prev
        } else {
            let with_history = set_historical(prev, counted(prev.historical(), a));
            if affects[n - 1] {
                set_for_version(with_history, counted(with_history.for_version(), a))
            } else {
                with_history
            }
        }
    }
}

/// Advisory data with every count zero.
pub open spec fn zero_data(timestamp: i64) -> AdvisoryData {
    set_for_version(set_historical(AdvisoryData { timestamp, ..arbitrary_data() }, AdvisoryCounts::zero_spec()), AdvisoryCounts::zero_spec())
}

pub open spec fn arbitrary_data() -> AdvisoryData {
    AdvisoryData {
        timestamp: 0,
        vulnerability_count: 0,
        low_vulnerability_count: 0,
        medium_vulnerability_count: 0,
        high_vulnerability_count: 0,
        critical_vulnerability_count: 0,
        warning_count: 0,
        notice_warning_count: 0,
        unmaintained_warning_count: 0,
        unsound_warning_count: 0,
        yanked_warning_count: 0,
        historical_vulnerability_count: 0,
        historical_low_vulnerability_count: 0,
        historical_medium_vulnerability_count: 0,
        historical_high_vulnerability_count: 0,
        historical_critical_vulnerability_count: 0,
        historical_warning_count: 0,
        historical_notice_warning_count: 0,
        historical_unmaintained_warning_count: 0,
        historical_unsound_warning_count: 0,
        historical_yanked_warning_count: 0,
    }
}

/// Whether each advisory affects the version of the dependency at `i`.
pub open spec fn column(affects: Seq<Vec<bool>>, i: int) -> Seq<bool> {
    Seq::new(affects.len(), |j: int| affects[j]@[i])
}

/// Counts the advisories for each dependency. `affects[j][i]` says whether
/// advisory `j` affects the version of dependency `i`. Each dependency
/// appears in the result exactly once, at its own position.
pub fn scan_advisories(specs: &Vec<CrateSpec>, records: &Vec<AdvisoryRecord>, affects: &Vec<Vec<bool>>, timestamp: i64) -> (r: Vec<(CrateSpec, ProviderResult<AdvisoryData>)>)
    requires
        affects@.len() == records@.len(),
        forall|j: int| 0 <= j < affects@.len() ==> (#[trigger] affects@[j])@.len() == specs@.len(),
    ensures
        r@.len() == specs@.len(),
        forall|i: int| 0 <= i < specs@.len() ==> (#[trigger] r@[i]).0 == specs@[i] && r@[i].1 == ProviderResult::Found(
            scanned(records@, column(affects@, i), specs@[i].name@, records@.len() as int, zero_data(timestamp))),
{
    let mut r: Vec<(CrateSpec, ProviderResult<AdvisoryData>)> = Vec::new();
    let mut i: usize = 0;
    while i < specs.len()
        invariant
            i <= specs.len(),
            affects@.len() == records@.len(),
            forall|j: int| 0 <= j < affects@.len() ==> (#[trigger] affects@[j])@.len() == specs@.len(),
            r@.len() == i,
            forall|k: int| 0 <= k < i ==> (#[trigger] r@[k]).0 == specs@[k] && r@[k].1 == ProviderResult::Found(
                scanned(records@, column(affects@, k), specs@[k].name@, records@.len() as int, zero_data(timestamp))),
        decreases specs.len() - i,
    {
        let mut data = AdvisoryData::zero(timestamp);
        let mut j: usize = 0;
        while j < records.len()
            invariant
                i < specs.len(),
                j <= records.len(),
                affects@.len() == records@.len(),
                forall|t: int| 0 <= t < affects@.len() ==> (#[trigger] affects@[t])@.len() == specs@.len(),
                data == scanned(records@, column(affects@, i as int), specs@[i as int].name@, j as int, zero_data(timestamp)),
            decreases records.len() - j,
        {
            if text_eq(records[j].package.as_str(), specs[i].name.as_str()) {
                data.count_advisory_historical(&records[j]);
                if affects[j][i] {
                    data.count_advisory_for_version(&records[j]);
                }
            }
            proof {
                let prev = scanned(records@, column(affects@, i as int), specs@[i as int].name@, j as int, zero_data(timestamp));
                assert(column(affects@, i as int)[j as int] == affects@[j as int]@[i as int]);
            }
            j = j + 1;
        }
        r.push((specs[i].duplicate(), ProviderResult::Found(data)));
        i = i + 1;
    }
    r
}

pub open spec fn set_historical(d: AdvisoryData, c: AdvisoryCounts) -> AdvisoryData {
    AdvisoryData {
        historical_warning_count: c.warnings,
        historical_notice_warning_count: c.notice,
        historical_unmaintained_warning_count: c.unmaintained,
        historical_unsound_warning_count: c.unsound,
        historical_yanked_warning_count: c.yanked,
        historical_vulnerability_count: c.vulnerabilities,
        historical_low_vulnerability_count: c.low,
        historical_medium_vulnerability_count: c.medium,
        historical_high_vulnerability_count: c.high,
        historical_critical_vulnerability_count: c.critical,
        ..d
    }
}

pub open spec fn set_for_version(d: AdvisoryData, c: AdvisoryCounts) -> AdvisoryData {
    AdvisoryData {
        warning_count: c.warnings,
        notice_warning_count: c.notice,
        unmaintained_warning_count: c.unmaintained,
        unsound_warning_count: c.unsound,
        yanked_warning_count: c.yanked,
        vulnerability_count: c.vulnerabilities,
        low_vulnerability_count: c.low,
        medium_vulnerability_count: c.medium,
        high_vulnerability_count: c.high,
        critical_vulnerability_count: c.critical,
        ..d
    }
}

} // verus!
