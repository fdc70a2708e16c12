//! Aggregation of metric outcomes into scores.

use vstd::prelude::*;
use crate::calculator::{OutcomeView, PolicyOutcome, calculate, details_view, outcomes};
use crate::config::Config;
use crate::dependency::DependencyType;
use crate::facts::CrateFacts;
use crate::metric::{Metric, MetricCategory};

verus! {

/// `n / d` rounded to the nearest whole number, halves rounded up.
pub open spec fn round_div(n: nat, d: nat) -> nat
    recommends
        d > 0,
{
    (2 * n + d) / (2 * d)
}

/// Points of an outcome, in ten-thousandths: nothing for a miss.
pub open spec fn points_of(o: OutcomeView) -> nat {
    match o {
        OutcomeView::Match(p, _) => p as nat,
        OutcomeView::NoMatch(_) => 0,
    }
}

/// Sum of the points of the first `n` outcomes, restricted to a category when one is given.
pub open spec fn total_points(d: Seq<(Metric, OutcomeView)>, n: int, c: Option<MetricCategory>) -> nat
    decreases n,
{
    if n <= 0 {
        0
    } else {
        total_points(d, n - 1, c) + if c is None || d[n - 1].0.category_of() == c->Some_0 {
            points_of(d[n - 1].1)
        } else {
            0
        }
    }
}

/// Number of the first `n` outcomes in a category.
pub open spec fn category_count(d: Seq<(Metric, OutcomeView)>, n: int, c: MetricCategory) -> nat
    decreases n,
{
    if n <= 0 {
        0
    } else {
        category_count(d, n - 1, c) + if d[n - 1].0.category_of() == c { 1nat } else { 0nat }
    }
}

/// The average of the points, as a score in hundredths, rounded.
pub open spec fn overall_score_of(d: Seq<(Metric, OutcomeView)>) -> nat {
    if d.len() == 0 {
        0
    } else {
        round_div(total_points(d, d.len() as int, None), 100 * d.len())
    }
}

/// The categories, in report order.
pub open spec fn categories() -> Seq<MetricCategory> {
    seq![
        MetricCategory::Metadata, MetricCategory::Stability, MetricCategory::Usage,
        MetricCategory::Community, MetricCategory::Activity, MetricCategory::Documentation,
        MetricCategory::Ownership, MetricCategory::Trustworthiness, MetricCategory::Codebase,
        MetricCategory::Cost, MetricCategory::Advisories,
    ]
}

/// The score of each of the first `n` categories that has outcomes.
pub open spec fn category_scores_upto(d: Seq<(Metric, OutcomeView)>, n: int) -> Seq<(MetricCategory, u64)>
    decreases n,
{
    if n <= 0 {
        Seq::empty()
    } else {
        let prev = category_scores_upto(d, n - 1);
        let c = categories()[n - 1];
        let k = category_count(d, d.len() as int, c);
        if k == 0 {
            prev
        } else {
            prev.push((c, round_div(total_points(d, d.len() as int, Some(c)), 100 * k) as u64))
        }
    }
}

pub open spec fn category_scores_of(d: Seq<(Metric, OutcomeView)>) -> Seq<(MetricCategory, u64)> {
    category_scores_upto(d, 11)
}

/// The scores of one dependency. Scores are in hundredths of a point.
#[derive(Debug, Clone)]
pub struct RankingOutcome {
    pub overall_score: u64,
    pub category_scores: Vec<(MetricCategory, u64)>,
    pub details: Vec<(Metric, PolicyOutcome)>,
    pub dependency_type: DependencyType,
}

/// What ranking a dependency yields: the outcomes of its metrics, their
/// rounded average, and the rounded averages by category.
pub open spec fn ranked(r: RankingOutcome, config: Config, facts: CrateFacts, dt: DependencyType, now: i64) -> bool {
    &&& details_view(r.details@) == outcomes(config, facts, dt, now)
    &&& r.overall_score as nat == overall_score_of(details_view(r.details@))
    &&& r.category_scores@ == category_scores_of(details_view(r.details@))
    &&& r.dependency_type == dt
}

/// Ranking is a function of its inputs: two rankings of the same facts under
/// the same configuration, dependency type and time agree in every outcome and score.
pub proof fn lemma_rank_deterministic(a: RankingOutcome, b: RankingOutcome, config: Config, facts: CrateFacts, dt: DependencyType, now: i64)
    requires
        ranked(a, config, facts, dt, now),
        ranked(b, config, facts, dt, now),
    ensures
        details_view(a.details@) == details_view(b.details@),
        a.overall_score == b.overall_score,
        a.category_scores@ == b.category_scores@,
        a.dependency_type == b.dependency_type,
{
}

/// Scores dependencies under one configuration.
#[derive(Debug, Clone, Copy)]
pub struct Ranker<'a> {
    pub config: &'a Config,
}

proof fn lemma_totals_bounded(d: Seq<(Metric, OutcomeView)>, n: int, c: Option<MetricCategory>)
    requires
        0 <= n <= d.len(),
    ensures
        total_points(d, n, c) <= n * (u64::MAX as nat),
    decreases n,
{
    if n > 0 {
        lemma_totals_bounded(d, n - 1, c);
    }
}

proof fn lemma_count_bounded(d: Seq<(Metric, OutcomeView)>, n: int, c: MetricCategory)
    requires
        0 <= n <= d.len(),
    ensures
        category_count(d, n, c) <= n,
    decreases n,
{
    if n > 0 {
        lemma_count_bounded(d, n - 1, c);
    }
}

proof fn lemma_round_fits(total: nat, k: nat)
    requires
        k > 0,
        total <= k * (u64::MAX as nat),
    ensures
        round_div(total, 100 * k) <= u64::MAX,
{
    assert((2 * total + 100 * k) / (2 * (100 * k)) <= u64::MAX) by (nonlinear_arith)
        requires
            k > 0,
            total <= k * (u64::MAX as nat),
    {
        assert(2 * total + 100 * k <= 2 * k * (u64::MAX as nat) + 100 * k);
        assert(2 * k * (u64::MAX as nat) + 100 * k <= 200 * k * (u64::MAX as nat));
    }
}

fn round_div_exec(n: u128, d: u128) -> (r: u64)
    requires
        d > 0,
        d <= u64::MAX,
        n <= u64::MAX * 64,
        round_div(n as nat, d as nat) <= u64::MAX,
    ensures
        r as nat == round_div(n as nat, d as nat),
{
    ((2 * n + d) / (2 * d)) as u64
}

impl<'a> Ranker<'a> {
    pub fn new(config: &'a Config) -> (r: Ranker<'a>)
        ensures
            *r.config == *config,
    {
        Ranker { config }
    }

    /// Ranks a dependency: the outcome of each metric, the rounded average of
    /// all points, and the rounded average within each category.
    pub fn rank(&self, facts: &CrateFacts, dependency_type: DependencyType, now: i64) -> (r: RankingOutcome)
        ensures
            ranked(r, *self.config, *facts, dependency_type, now),
    {
        let details = calculate(self.config, facts, dependency_type, now);
        let overall_score = overall_score(&details);
        let category_scores = category_scores(&details);
        RankingOutcome { overall_score, category_scores, details, dependency_type }
    }
}

fn overall_score(details: &Vec<(Metric, PolicyOutcome)>) -> (r: u64)
    requires
        details@.len() <= 64,
    ensures
        r as nat == overall_score_of(details_view(details@)),
{
    let ghost d = details_view(details@);
    if details.len() == 0 {
        return 0;
    }
    let total = sum_points(details, None);
    proof {
        lemma_totals_bounded(d, d.len() as int, None);
        lemma_round_fits(total as nat, d.len());
    }
    round_div_exec(total, 100 * details.len() as u128)
}

fn sum_points(details: &Vec<(Metric, PolicyOutcome)>, c: Option<MetricCategory>) -> (r: u128)
    requires
        details@.len() <= 64,
    ensures
        r as nat == total_points(details_view(details@), details@.len() as int, c),
{
    let ghost d = details_view(details@);
    let mut total: u128 = 0;
    let mut i: usize = 0;
    while i < details.len()
        invariant
            d == details_view(details@),
            details@.len() <= 64,
            i <= details.len(),
            total as nat == total_points(d, i as int, c),
        decreases details.len() - i,
    {
        proof {
            lemma_totals_bounded(d, i as int, c);
        }
        let in_scope = match c {
            None => true,
            Some(cat) => details[i].0.category() == cat,
        };
        if in_scope {
            match &details[i].1 {
                PolicyOutcome::Match(p, _) => total = total + *p as u128,
                PolicyOutcome::NoMatch(_) => {},
            }
        }
        i = i + 1;
    }
    total
}

fn count_in(details: &Vec<(Metric, PolicyOutcome)>, c: MetricCategory) -> (r: u64)
    ensures
        r as nat == category_count(details_view(details@), details@.len() as int, c),
{
    let ghost d = details_view(details@);
    let mut k: u64 = 0;
    let mut i: usize = 0;
    while i < details.len()
        invariant
            d == details_view(details@),
            i <= details.len(),
            k as nat == category_count(d, i as int, c),
            k <= i,
        decreases details.len() - i,
    {
        if details[i].0.category() == c {
            k = k + 1;
        }
        i = i + 1;
    }
    k
}

fn all_categories() -> (r: Vec<MetricCategory>)
    ensures
        r@ == categories(),
{
    let r = vec![
        MetricCategory::Metadata, MetricCategory::Stability, MetricCategory::Usage,
        MetricCategory::Community, MetricCategory::Activity, MetricCategory::Documentation,
        MetricCategory::Ownership, MetricCategory::Trustworthiness, MetricCategory::Codebase,
        MetricCategory::Cost, MetricCategory::Advisories,
    ];
    assert(r@ =~= categories());
    r
}

fn category_scores(details: &Vec<(Metric, PolicyOutcome)>) -> (r: Vec<(MetricCategory, u64)>)
    requires
        details@.len() <= 64,
    ensures
        r@ == category_scores_of(details_view(details@)),
{
    let ghost d = details_view(details@);
    let cats = all_categories();
    let mut r: Vec<(MetricCategory, u64)> = Vec::new();
    let mut i: usize = 0;
    while i < cats.len()
        invariant
            d == details_view(details@),
            details@.len() <= 64,
            cats@ == categories(),
            i <= cats.len(),
            r@ == category_scores_upto(d, i as int),
        decreases cats.len() - i,
    {
        let c = cats[i];
        let k = count_in(details, c);
        if k > 0 {
            let total = sum_points(details, Some(c));
            proof {
                lemma_totals_bounded(d, d.len() as int, Some(c));
                lemma_count_bounded(d, d.len() as int, c);
                lemma_category_total_bounded(d, d.len() as int, c);
                lemma_round_fits(total as nat, k as nat);
            }
            let score = round_div_exec(total, 100 * k as u128);
            r.push((c, score));
        }
        i = i + 1;
    }
    r
}

proof fn lemma_category_total_bounded(d: Seq<(Metric, OutcomeView)>, n: int, c: MetricCategory)
    requires
        0 <= n <= d.len(),
    ensures
        total_points(d, n, Some(c)) <= category_count(d, n, c) * (u64::MAX as nat),
    decreases n,
{
    if n > 0 {
        lemma_category_total_bounded(d, n - 1, c);
        let a = category_count(d, n - 1, c);
        let b: nat = if d[n - 1].0.category_of() == c { 1 } else { 0 };
        let big = u64::MAX as nat;
        assert(category_count(d, n, c) == a + b);
        assert((a + b) * big == a * big + b * big) by (nonlinear_arith);
    }
}

/// The reasons of the misses, in order.
pub open spec fn reasons_of(d: Seq<(Metric, OutcomeView)>, n: int) -> Seq<Seq<char>>
    decreases n,
{
    if n <= 0 {
        Seq::empty()
    } else {
        match d[n - 1].1 {
            OutcomeView::NoMatch(s) => reasons_of(d, n - 1).push(s),
            _ => reasons_of(d, n - 1),
        }
    }
}

/// Collects the reasons of the metrics that did not match.
pub fn extract_reasons(details: &Vec<(Metric, PolicyOutcome)>) -> (r: Vec<String>)
    ensures
        r@.map_values(|s: String| s@) == reasons_of(details_view(details@), details@.len() as int),
{
    let ghost d = details_view(details@);
    let mut r: Vec<String> = Vec::new();
    let mut i: usize = 0;
    while i < details.len()
        invariant
            d == details_view(details@),
            i <= details.len(),
            r@.map_values(|s: String| s@) == reasons_of(d, i as int),
        decreases details.len() - i,
    {
        match &details[i].1 {
            PolicyOutcome::NoMatch(reason) => {
                r.push(reason.clone());
                assert(r@.map_values(|s: String| s@) =~= reasons_of(d, i as int).push(reason@));
            },
            _ => {},
        }
        i = i + 1;
    }
    r
}

/// Rounding a score that is already in hundredths to hundredths leaves it
/// unchanged: `round2(round2(x)) = round2(x)`.
pub proof fn lemma_round2_idempotent(n: nat, d: nat)
    requires
        d > 0,
    ensures
        round_div(round_div(n, d) * 100, 100) == round_div(n, d),
{
    let s = round_div(n, d);
    assert((2 * (s * 100) + 100) / 200 == s) by (nonlinear_arith);
}

} // verus!
