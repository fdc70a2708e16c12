//! User policy: thresholds, cache lifetimes, the allow-list and the policies of each metric.

use vstd::prelude::*;
use crate::metric::Metric;
use crate::policy::Policy;
use crate::text::text_eq;
use crate::version::{Version, VersionReq, req_matches};

verus! {

/// A crate and version requirement exempt from failing the run.
#[derive(Debug, Clone)]
pub struct AllowListEntry {
    pub name: String,
    pub version: VersionReq,
}

impl AllowListEntry {
    pub open spec fn admits(&self, name: Seq<char>, version: Version) -> bool {
        self.name@ == name && req_matches(self.version.text_view(), version.major, version.minor,
            version.patch, version.pre@, version.build@)
    }

    /// The name is equal and the version satisfies the requirement.
    pub fn matches(&self, name: &str, version: &Version) -> (r: bool)
        ensures
            r == self.admits(name@, *version),
    {
        let same = text_eq(self.name.as_str(), name);
        same && self.version.matches(version)
    }
}

/// A named boolean expression over a dependency's facts and score.
#[derive(Debug, Clone)]
pub struct Expression {
    pub name: String,
    pub description: String,
    pub expression: String,
}

/// All user policy.
///
/// Thresholds are scores in hundredths of a point (3000 stands for 30); the
/// cache lifetimes are in seconds; `metric_scaling` gives, for a metric, the
/// percentage its points are scaled by (100 when the metric is not listed).
#[derive(Debug, Clone)]
pub struct Config {
    pub allow_list: Vec<AllowListEntry>,
    pub high_risk: Vec<Expression>,
    pub eval: Vec<Expression>,
    pub medium_risk_threshold: i64,
    pub low_risk_threshold: i64,
    pub crates_cache_ttl: u64,
    pub hosting_cache_ttl: u64,
    pub codebase_cache_ttl: u64,
    pub coverage_cache_ttl: u64,
    pub advisories_cache_ttl: u64,
    pub policies: Vec<(Metric, Policy)>,
    pub metric_scaling: Vec<(Metric, u32)>,
}

} // verus!

verus! {

/// A week, in seconds: how long cached data is kept unless configured otherwise.
pub const DEFAULT_CACHE_TTL: u64 = 604800;

/// Why a configuration was rejected.
#[derive(Debug, Clone, Copy, PartialEq, Eq, Structural)]
pub enum ConfigError {
    /// The medium risk threshold lies outside 0..=100.
    MediumThresholdOutOfRange(i64),
    /// The low risk threshold lies outside 0..=100.
    LowThresholdOutOfRange(i64),
    /// The medium risk threshold is not below the low risk threshold.
    ThresholdsOutOfOrder(i64, i64),
}

/// The largest threshold, 100 points in hundredths.
pub const MAX_THRESHOLD: i64 = 10000;

/// The default cache lifetime.
pub fn default_cache_ttl() -> (r: u64)
    ensures
        r == DEFAULT_CACHE_TTL,
{
    DEFAULT_CACHE_TTL
}

impl Config {
    pub open spec fn threshold_error(&self) -> Option<ConfigError> {
        if !(0 <= self.medium_risk_threshold <= MAX_THRESHOLD) {
            Some(ConfigError::MediumThresholdOutOfRange(self.medium_risk_threshold))
        } else if !(0 <= self.low_risk_threshold <= MAX_THRESHOLD) {
            Some(ConfigError::LowThresholdOutOfRange(self.low_risk_threshold))
        } else if self.medium_risk_threshold >= self.low_risk_threshold {
            Some(ConfigError::ThresholdsOutOfOrder(self.medium_risk_threshold, self.low_risk_threshold))
        } else {
            None
        }
    }

    /// Checks the thresholds: each within 0..=100 and medium below low.
    pub fn validate(&self) -> (r: Result<(), ConfigError>)
        ensures
            r is Ok <==> self.threshold_error() is None,
            r is Err ==> Some(r->Err_0) == self.threshold_error(),
    {
        if !(0 <= self.medium_risk_threshold && self.medium_risk_threshold <= MAX_THRESHOLD) {
            return Err(ConfigError::MediumThresholdOutOfRange(self.medium_risk_threshold));
        }
        if !(0 <= self.low_risk_threshold && self.low_risk_threshold <= MAX_THRESHOLD) {
            return Err(ConfigError::LowThresholdOutOfRange(self.low_risk_threshold));
        }
        if self.medium_risk_threshold >= self.low_risk_threshold {
            return Err(ConfigError::ThresholdsOutOfOrder(self.medium_risk_threshold, self.low_risk_threshold));
        }
        Ok(())
    }

    pub open spec fn allows(&self, name: Seq<char>, version: Version) -> bool {
        exists|i: int| 0 <= i < self.allow_list@.len() && #[trigger] self.allow_list@[i].admits(name, version)
    }

    /// Whether some allow-list entry matches the crate.
    pub fn is_allowed(&self, name: &str, version: &Version) -> (r: bool)
        ensures
            r == self.allows(name@, *version),
    {
        let mut i: usize = 0;
        while i < self.allow_list.len()
            invariant
                i <= self.allow_list.len(),
                forall|k: int| 0 <= k < i ==> !(#[trigger] self.allow_list@[k]).admits(name@, *version),
            decreases self.allow_list.len() - i,
        {
            if self.allow_list[i].matches(name, version) {
                return true;
            }
            i = i + 1;
        }
        false
    }
}

impl ConfigError {
    pub open spec fn message_text(&self) -> Seq<char> {
        match self {
            ConfigError::MediumThresholdOutOfRange(_) => "medium_risk_threshold must be between 0 and 100"@,
            ConfigError::LowThresholdOutOfRange(_) => "low_risk_threshold must be between 0 and 100"@,
            ConfigError::ThresholdsOutOfOrder(_, _) => "medium_risk_threshold must be less than low_risk_threshold"@,
        }
    }

    /// A message naming the constraint that failed.
    pub fn message(&self) -> (r: String)
        ensures
            r@ == self.message_text(),
    {
        let s = match self {
            ConfigError::MediumThresholdOutOfRange(_) => "medium_risk_threshold must be between 0 and 100",
            ConfigError::LowThresholdOutOfRange(_) => "low_risk_threshold must be between 0 and 100",
            ConfigError::ThresholdsOutOfOrder(_, _) => "medium_risk_threshold must be less than low_risk_threshold",
        };
        String::from_str(s)
    }
}

impl Default for Config {
    fn default() -> (r: Config)
        ensures
            r.allow_list@.len() == 0,
            r.high_risk@.len() == 0,
            r.eval@.len() == 0,
            r.medium_risk_threshold == 3000,
            r.low_risk_threshold == 7000,
            r.crates_cache_ttl == DEFAULT_CACHE_TTL,
            r.hosting_cache_ttl == DEFAULT_CACHE_TTL,
            r.codebase_cache_ttl == DEFAULT_CACHE_TTL,
            r.coverage_cache_ttl == DEFAULT_CACHE_TTL,
            r.advisories_cache_ttl == DEFAULT_CACHE_TTL,
            r.policies@.len() == 0,
            r.metric_scaling@.len() == 0,
    {
        Config {
            allow_list: Vec::new(),
            high_risk: Vec::new(),
            eval: Vec::new(),
            medium_risk_threshold: 3000,
            low_risk_threshold: 7000,
            crates_cache_ttl: default_cache_ttl(),
            hosting_cache_ttl: default_cache_ttl(),
            codebase_cache_ttl: default_cache_ttl(),
            coverage_cache_ttl: default_cache_ttl(),
            advisories_cache_ttl: default_cache_ttl(),
            policies: Vec::new(),
            metric_scaling: Vec::new(),
        }
    }
}

/// An allow-list entry never admits a crate of another name, whatever its
/// version requirement; a list of one entry admits exactly what that entry admits.
pub proof fn lemma_allow_list_names(config: Config, name: Seq<char>, version: Version)
    ensures
        (forall|i: int| 0 <= i < config.allow_list@.len() ==> (#[trigger] config.allow_list@[i]).name@ != name)
            ==> !config.allows(name, version),
        config.allow_list@.len() == 1 ==> (config.allows(name, version) <==> config.allow_list@[0].name@ == name
            && req_matches(config.allow_list@[0].version.text_view(), version.major, version.minor, version.patch,
            version.pre@, version.build@)),
{
    if config.allow_list@.len() == 1 && config.allow_list@[0].admits(name, version) {
        assert(config.allows(name, version));
    }
}

/// A configuration whose thresholds pass validation is accepted, and one with
/// medium at or above low, or with either outside 0..=100, is rejected.
pub proof fn lemma_validation_rejects(c: Config)
    ensures
        c.threshold_error() is None <==> (0 <= c.medium_risk_threshold <= MAX_THRESHOLD
            && 0 <= c.low_risk_threshold <= MAX_THRESHOLD && c.medium_risk_threshold < c.low_risk_threshold),
{
}

} // verus!
