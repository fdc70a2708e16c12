//! Risk classification and the exit code.

use vstd::prelude::*;
use crate::config::Config;
use crate::crate_spec::CrateSpec;

verus! {

/// The risk level assigned to a dependency.
#[derive(Debug, Clone, Copy, PartialEq, Eq, Structural)]
pub enum Risk {
    Low,
    Medium,
    High,
}

impl Risk {
    pub open spec fn label(self) -> Seq<char> {
        match self {
            Risk::Low => "LOW RISK"@,
            Risk::Medium => "MEDIUM RISK"@,
            Risk::High => "HIGH RISK"@,
        }
    }

    /// The label shown in reports.
    pub fn to_text(self) -> (r: String)
        ensures
            r@ == self.label(),
    {
        match self {
            Risk::Low => String::from_str("LOW RISK"),
            Risk::Medium => String::from_str("MEDIUM RISK"),
            Risk::High => String::from_str("HIGH RISK"),
        }
    }
}

/// The risk a score earns: `Low` at or above the low threshold, `High` below
/// the medium threshold, `Medium` between them. Scores and thresholds are in
/// hundredths of a point.
pub open spec fn risk_of(score: u64, medium: i64, low: i64) -> Risk {
    if score >= low {
        Risk::Low
    } else if score < medium {
        Risk::High
    } else {
        Risk::Medium
    }
}

/// Classifies a score against the configured thresholds.
pub fn classify(score: u64, config: &Config) -> (r: Risk)
    ensures
        r == risk_of(score, config.medium_risk_threshold, config.low_risk_threshold),
{
    if (score as i128) >= (config.low_risk_threshold as i128) {
        Risk::Low
    } else if (score as i128) < (config.medium_risk_threshold as i128) {
        Risk::High
    } else {
        Risk::Medium
    }
}

/// The outcome of evaluating a single expression.
#[derive(Debug, Clone)]
pub struct ExpressionOutcome {
    pub name: String,
    pub description: String,
    pub result: bool,
}

/// An expression outcome shown as its icon and name.
#[derive(Debug)]
pub struct IconName<'a>(pub &'a ExpressionOutcome);

impl ExpressionOutcome {
    pub fn new(name: String, description: String, result: bool) -> (r: ExpressionOutcome)
        ensures
            r.name == name,
            r.description == description,
            r.result == result,
    {
        ExpressionOutcome { name, description, result }
    }

    pub open spec fn icon_text(&self) -> Seq<char> {
        if self.result { "\u{2714}"@ } else { "\u{2717}"@ }
    }

    /// A check mark for a pass, a cross for a failure.
    pub fn icon(&self) -> (r: &'static str)
        ensures
            r@ == self.icon_text(),
    {
        if self.result { "\u{2714}" } else { "\u{2717}" }
    }

    /// The outcome displayed as its icon followed by its name.
    pub fn icon_name(&self) -> (r: IconName<'_>)
        ensures
            r.0 == self,
    {
        IconName(self)
    }

    pub open spec fn text(&self) -> Seq<char> {
        if self.result {
            self.name@ + ": "@ + self.description@
        } else {
            self.name@ + " (failed): "@ + self.description@
        }
    }

    /// The name and description, marking a failure.
    pub fn to_text(&self) -> (r: String)
        ensures
            r@ == self.text(),
    {
        let mut s = self.name.clone();
        if self.result {
            s.append(": ");
        } else {
            s.append(" (failed): ");
        }
        s.append(self.description.as_str());
        s
    }
}

impl<'a> IconName<'a> {
    /// The icon, a space, and the name.
    pub fn to_text(&self) -> (r: String)
        ensures
            r@ == self.0.icon_text() + " "@ + self.0.name@,
    {
        let mut s = String::from_str(self.0.icon());
        s.append(" ");
        s.append(self.0.name.as_str());
        s
    }
}

/// The outcome of evaluating a dependency against policy expressions.
#[derive(Debug, Clone)]
pub struct Appraisal {
    pub risk: Risk,
    pub expression_outcomes: Vec<ExpressionOutcome>,
}

impl Appraisal {
    pub fn new(risk: Risk, expression_outcomes: Vec<ExpressionOutcome>) -> (r: Appraisal)
        ensures
            r.risk == risk,
            r.expression_outcomes == expression_outcomes,
    {
        Appraisal { risk, expression_outcomes }
    }
}

pub open spec fn all_pass(outcomes: Seq<ExpressionOutcome>) -> bool {
    forall|i: int| 0 <= i < outcomes.len() ==> (#[trigger] outcomes[i]).result
}

/// Appraises a dependency: a failed high-risk expression forces `High`;
/// otherwise the score decides. The outcomes are kept in the appraisal.
pub fn appraise(config: &Config, score: u64, high_risk: Vec<ExpressionOutcome>) -> (r: Appraisal)
    ensures
        r.risk == if all_pass(high_risk@) { risk_of(score, config.medium_risk_threshold, config.low_risk_threshold) } else { Risk::High },
        r.expression_outcomes == high_risk,
{
    let mut passed = true;
    let mut i: usize = 0;
    while i < high_risk.len()
        invariant
            i <= high_risk.len(),
            passed == forall|k: int| 0 <= k < i ==> (#[trigger] high_risk@[k]).result,
        decreases high_risk.len() - i,
    {
        if !high_risk[i].result {
            passed = false;
        }
        i = i + 1;
    }
    let risk = if passed { classify(score, config) } else { Risk::High };
    Appraisal::new(risk, high_risk)
}

/// Whether a dependency at this risk makes the run fail, before the allow-list is consulted.
pub open spec fn above_floor(risk: Risk, error_if_medium: bool, error_if_high: bool) -> bool {
    (error_if_high && risk == Risk::High) || (error_if_medium && (risk == Risk::Medium || risk == Risk::High))
}

/// The exit code: 1 when some dependency that is not allowed is at or above
/// the configured risk floor, else 0.
pub fn exit_code(results: &Vec<(CrateSpec, Risk)>, config: &Config, error_if_medium: bool, error_if_high: bool) -> (r: i32)
    ensures
        r == 1 <==> exists|i: int| 0 <= i < results@.len() && above_floor(#[trigger] results@[i].1, error_if_medium, error_if_high)
            && !config.allows(results@[i].0.name@, results@[i].0.version),
        r == 0 || r == 1,
{
    let mut i: usize = 0;
    while i < results.len()
        invariant
            i <= results.len(),
            forall|k: int| 0 <= k < i ==> !(above_floor(#[trigger] results@[k].1, error_if_medium, error_if_high)
                && !config.allows(results@[k].0.name@, results@[k].0.version)),
        decreases results.len() - i,
    {
        let risk = results[i].1;
        let fails = (error_if_high && risk == Risk::High) || (error_if_medium && (risk == Risk::Medium || risk == Risk::High));
        if fails && !config.is_allowed(results[i].0.name.as_str(), &results[i].0.version) {
            return 1;
        }
        i = i + 1;
    }
    0
}

} // verus!
