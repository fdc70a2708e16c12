use aprz::advisories::{AdvisoryData, AdvisoryRecord, Informational, Severity, scan_advisories};
use aprz::appraisal::{appraise, classify, exit_code, ExpressionOutcome, Risk};
use aprz::cache::{classify_entry, needs_fetch, resolve, stale_value, CacheResult};
use aprz::calculator::{calculate, PolicyOutcome};
use aprz::config::{AllowListEntry, Config};
use aprz::crate_spec::CrateSpec;
use aprz::dependency::{DependencyType, DependencyTypes};
use aprz::facts::{AgeStats, CodebaseData, CoverageData, CrateFacts, CrateOverallData, CrateVersionData, HostingData, IssueStats, Owner, OwnerKind};
use aprz::metric::{Metric, MetricCategory};
use aprz::policy::{AgePolicy, BooleanPolicy, LicensePolicy, MaxCountPolicy, MinCountPolicy, PercentagePolicy, Policy, ResponsivenessPolicy};
use aprz::progress::ProgressReporter;
use aprz::provider_result::ProviderResult;
use aprz::ranking::{extract_reasons, Ranker};
use aprz::tracker::RequestTracker;
use aprz::version::{Version, VersionReq};

const DAY: i64 = 86400;

fn empty_facts() -> CrateFacts {
    CrateFacts {
        collected_at: 0,
        crate_version_data: ProviderResult::CrateNotFound,
        crate_overall_data: ProviderResult::CrateNotFound,
        hosting_data: ProviderResult::Error("offline".to_string()),
        advisory_data: ProviderResult::Found(AdvisoryData::zero(0)),
        codebase_data: ProviderResult::VersionNotFound,
        coverage_data: ProviderResult::VersionNotFound,
        docs_data: ProviderResult::VersionNotFound,
    }
}

fn outcome(details: &[(Metric, PolicyOutcome)], m: Metric) -> Option<&PolicyOutcome> {
    details.iter().find(|(k, _)| *k == m).map(|(_, o)| o)
}

fn version_data(license: Option<&str>, major: u64, created_at: i64) -> CrateVersionData {
    CrateVersionData {
        timestamp: 0,
        version: Version::new(major, 0, 0),
        description: None,
        homepage: None,
        documentation: None,
        license: license.map(|s| s.to_string()),
        rust_version: None,
        edition: None,
        features: vec![],
        created_at,
        updated_at: created_at,
        yanked: false,
        downloads: 0,
    }
}

fn std_types() -> DependencyTypes {
    DependencyTypes::standard_only()
}

#[test]
fn missing_facts_leave_metrics_out() {
    let mut config = Config::default();
    config.policies.push((Metric::VulnerabilityCount, Policy::MaxCount(MaxCountPolicy { dependency_types: std_types(), max_count: 0, points: 1000 })));
    config.policies.push((Metric::RepoStarCount, Policy::MinCount(MinCountPolicy { dependency_types: std_types(), min_count: 10, points: 500 })));
    let details = calculate(&config, &empty_facts(), DependencyType::Standard, 0);
    assert!(outcome(&details, Metric::RepoStarCount).is_none());
    match outcome(&details, Metric::VulnerabilityCount) {
        Some(PolicyOutcome::Match(points, info)) => {
            assert_eq!(*points, 1000 * 100);
            assert_eq!(info, "0 vulnerabilities");
        },
        other => panic!("unexpected {other:?}"),
    }
    match outcome(&details, Metric::WarningCount) {
        Some(PolicyOutcome::NoMatch(reason)) => assert_eq!(reason, "no policy defined"),
        other => panic!("unexpected {other:?}"),
    }
    assert_eq!(details.len(), 20);
}

#[test]
fn first_matching_policy_wins_and_misses_cite_the_bound() {
    let mut config = Config::default();
    config.policies.push((Metric::RepoStarCount, Policy::MinCount(MinCountPolicy { dependency_types: std_types(), min_count: 100, points: 900 })));
    config.policies.push((Metric::RepoStarCount, Policy::MinCount(MinCountPolicy { dependency_types: std_types(), min_count: 10, points: 400 })));
    config.policies.push((Metric::RepoForkCount, Policy::MinCount(MinCountPolicy { dependency_types: std_types(), min_count: 50, points: 400 })));
    config.policies.push((Metric::RepoForkCount, Policy::MinCount(MinCountPolicy { dependency_types: std_types(), min_count: 20, points: 300 })));
    config.metric_scaling.push((Metric::RepoStarCount, 50));
    let mut facts = empty_facts();
    let stats = IssueStats { open_count: 3, closed_count: 9, closed_age: AgeStats { avg: 5, p50: 4, p75: 6, p90: 8, p95: 9 } };
    facts.hosting_data = ProviderResult::Found(HostingData {
        timestamp: 0, stars: 42, forks: 7, subscribers: 1, contributors: 2, commits_last_3_months: 12, issues: stats, pulls: stats,
    });
    let details = calculate(&config, &facts, DependencyType::Standard, 0);
    match outcome(&details, Metric::RepoStarCount) {
        Some(PolicyOutcome::Match(points, info)) => {
            assert_eq!(*points, 400 * 50);
            assert_eq!(info, "42 stars");
        },
        other => panic!("unexpected {other:?}"),
    }
    match outcome(&details, Metric::RepoForkCount) {
        Some(PolicyOutcome::NoMatch(reason)) => assert_eq!(reason, "7 forks (need >= 20)"),
        other => panic!("unexpected {other:?}"),
    }
    // Dev dependencies have no policies here.
    let dev = calculate(&config, &facts, DependencyType::Dev, 0);
    match outcome(&dev, Metric::RepoStarCount) {
        Some(PolicyOutcome::NoMatch(reason)) => assert_eq!(reason, "no policy defined"),
        other => panic!("unexpected {other:?}"),
    }
}

#[test]
fn other_policy_shapes() {
    let mut config = Config::default();
    let licenses = LicensePolicy { dependency_types: std_types(), licenses: vec!["MIT".to_string(), "Apache-2.0".to_string()], points: 100 };
    config.policies.push((Metric::License, Policy::License(licenses)));
    config.policies.push((Metric::Age, Policy::Age(AgePolicy { dependency_types: std_types(), min_days: 90, points: 100 })));
    config.policies.push((Metric::FullySafeCode, Policy::Boolean(BooleanPolicy { dependency_types: std_types(), expected: true, points: 100 })));
    config.policies.push((Metric::CodeCoveragePercentage, Policy::Percentage(PercentagePolicy { dependency_types: std_types(), min_percentage: 80, points: 100 })));
    config.policies.push((Metric::IssueResponsiveness, Policy::Responsiveness(ResponsivenessPolicy {
        dependency_types: std_types(), max_average_days: 10, max_p50_days: 10, max_p75_days: 10, max_p90_days: 10, max_p95_days: 10, points: 100,
    })));
    let now = 1000 * DAY;
    let mut facts = empty_facts();
    facts.crate_version_data = ProviderResult::Found(version_data(Some("MIT OR Apache-2.0"), 1, now - 400 * DAY));
    facts.crate_overall_data = ProviderResult::Found(CrateOverallData {
        timestamp: 0,
        name: "x".to_string(),
        created_at: now - 42 * DAY,
        updated_at: now,
        repository: None,
        categories: vec![],
        keywords: vec![],
        owners: vec![
            Owner { login: "a".to_string(), kind: OwnerKind::User, name: None },
            Owner { login: "t".to_string(), kind: OwnerKind::Team, name: None },
            Owner { login: "b".to_string(), kind: OwnerKind::User, name: None },
        ],
        monthly_downloads: vec![(0, 5), (31, 17)],
        downloads: 99,
        dependents: 3,
    });
    facts.codebase_data = ProviderResult::Found(CodebaseData { timestamp: 0, unsafe_count: 2, transitive_dependencies: 4, example_count: 1 });
    facts.coverage_data = ProviderResult::Found(CoverageData { timestamp: 0, code_coverage_percentage: 7550 });
    let stats = IssueStats { open_count: 3, closed_count: 9, closed_age: AgeStats { avg: 5, p50: 4, p75: 6, p90: 8, p95: 11 } };
    facts.hosting_data = ProviderResult::Found(HostingData {
        timestamp: 0, stars: 1, forks: 1, subscribers: 1, contributors: 1, commits_last_3_months: 1, issues: stats, pulls: stats,
    });
    let d = calculate(&config, &facts, DependencyType::Standard, now);
    assert!(matches!(outcome(&d, Metric::License), Some(PolicyOutcome::Match(10000, s)) if s == "'MIT OR Apache-2.0'"));
    assert!(matches!(outcome(&d, Metric::Age), Some(PolicyOutcome::NoMatch(s)) if s == "42 days (need >= 90)"));
    assert!(matches!(outcome(&d, Metric::FullySafeCode), Some(PolicyOutcome::NoMatch(s)) if s == "crate contains unsafe code"));
    assert!(matches!(outcome(&d, Metric::CodeCoveragePercentage), Some(PolicyOutcome::NoMatch(s)) if s == "75.5% codebase coverage (need >= 80.0%)"));
    assert!(matches!(outcome(&d, Metric::IssueResponsiveness), Some(PolicyOutcome::NoMatch(s)) if s == "insufficiently responsive"));
    assert!(matches!(outcome(&d, Metric::UserOwnerCount), Some(PolicyOutcome::NoMatch(s)) if s == "no policy defined"));
    assert!(outcome(&d, Metric::DirectDependencyCount).is_none());
}

#[test]
fn license_expressions() {
    let p = LicensePolicy { dependency_types: std_types(), licenses: vec!["mit".to_string()], points: 1 };
    assert!(p.check_license("MIT"));
    assert!(p.check_license("MIT OR GPL-3.0"));
    assert!(!p.check_license("MIT AND GPL-3.0"));
    assert!(!p.check_license("GPL-3.0"));
    // Not an SPDX expression: plain substring match, ignoring case.
    assert!(p.check_license("the MIT licence, more or less"));
    let both = LicensePolicy { dependency_types: std_types(), licenses: vec!["MIT".to_string(), "GPL-3.0".to_string()], points: 1 };
    assert!(both.check_license("MIT AND GPL-3.0"));
    assert_eq!(LicensePolicy::parse_licenses(" MIT, Apache-2.0 ,,"), vec!["MIT".to_string(), "Apache-2.0".to_string()]);
}

#[test]
fn ranking_averages_and_rounds() {
    let mut config = Config::default();
    config.policies.push((Metric::VulnerabilityCount, Policy::MaxCount(MaxCountPolicy { dependency_types: std_types(), max_count: 0, points: 100 })));
    config.policies.push((Metric::WarningCount, Policy::MaxCount(MaxCountPolicy { dependency_types: std_types(), max_count: 0, points: 100 })));
    let ranker = Ranker::new(&config);
    let r = ranker.rank(&empty_facts(), DependencyType::Standard, 0);
    // Twenty advisory outcomes, two of them worth 1.00 point each: 2/20 = 0.10.
    assert_eq!(r.details.len(), 20);
    assert_eq!(r.overall_score, 10);
    assert_eq!(r.category_scores, vec![(MetricCategory::Advisories, 10)]);
    assert_eq!(r.dependency_type, DependencyType::Standard);
    assert_eq!(extract_reasons(&r.details).len(), 18);
    let again = ranker.rank(&empty_facts(), DependencyType::Standard, 0);
    assert_eq!(again.overall_score, r.overall_score);
}

#[test]
fn ranking_rounds_half_up_and_handles_no_outcomes() {
    let mut config = Config::default();
    // One match of 0.01 point among 20 outcomes averages 0.0005 point, rounded to 0.00;
    // ten of them average 0.005, rounded up to 0.01.
    config.policies.push((Metric::VulnerabilityCount, Policy::MaxCount(MaxCountPolicy { dependency_types: std_types(), max_count: 0, points: 1 })));
    let r = Ranker::new(&config).rank(&empty_facts(), DependencyType::Standard, 0);
    assert_eq!(r.overall_score, 0);
    let mut facts = empty_facts();
    facts.advisory_data = ProviderResult::CrateNotFound;
    let defaults = Config::default();
    let none = Ranker::new(&defaults).rank(&facts, DependencyType::Standard, 0);
    assert_eq!(none.details.len(), 0);
    assert_eq!(none.overall_score, 0);
    assert!(none.category_scores.is_empty());
}

#[test]
fn risk_classification_scenario() {
    let config = Config { medium_risk_threshold: 3000, low_risk_threshold: 7000, ..Config::default() };
    assert_eq!(classify(7500, &config), Risk::Low);
    assert_eq!(classify(5000, &config), Risk::Medium);
    assert_eq!(classify(2000, &config), Risk::High);
    assert_eq!(classify(7000, &config), Risk::Low);
    assert_eq!(classify(3000, &config), Risk::Medium);
    let failed = ExpressionOutcome::new("has_docs".to_string(), "documented".to_string(), false);
    let a = appraise(&config, 9000, vec![failed]);
    assert_eq!(a.risk, Risk::High);
    let passed = ExpressionOutcome::new("has_docs".to_string(), "documented".to_string(), true);
    assert_eq!(appraise(&config, 9000, vec![passed.clone()]).risk, Risk::Low);
    assert_eq!(passed.to_text(), "has_docs: documented");
    assert_eq!(passed.icon_name().to_text(), "\u{2714} has_docs");
    assert_eq!(Risk::Medium.to_text(), "MEDIUM RISK");
}

#[test]
fn allow_list_scenario() {
    let mut config = Config::default();
    config.allow_list.push(AllowListEntry { name: "tokio".to_string(), version: VersionReq::parse("^1.0").unwrap() });
    assert!(config.is_allowed("tokio", &Version::new(1, 35, 0)));
    assert!(!config.is_allowed("tokio", &Version::new(2, 0, 0)));
    assert!(!config.is_allowed("hyper", &Version::new(1, 0, 0)));
    let mut foo = Config::default();
    foo.allow_list.push(AllowListEntry { name: "foo".to_string(), version: VersionReq::parse("^1").unwrap() });
    assert!(foo.is_allowed("foo", &Version::new(1, 2, 3)));
    assert!(!foo.is_allowed("foo", &Version::new(2, 0, 0)));
    assert!(!foo.is_allowed("bar", &Version::new(1, 0, 0)));
}

#[test]
fn exit_code_honours_allow_list_and_floor() {
    let mut config = Config::default();
    config.allow_list.push(AllowListEntry { name: "tokio".to_string(), version: VersionReq::parse("^1.0").unwrap() });
    let tokio = CrateSpec::from_arcs("tokio".to_string(), Version::new(1, 2, 0));
    let hyper = CrateSpec::from_arcs("hyper".to_string(), Version::new(1, 0, 0));
    assert_eq!(exit_code(&vec![(tokio.clone(), Risk::High)], &config, true, true), 0);
    assert_eq!(exit_code(&vec![(hyper.clone(), Risk::Medium)], &config, false, true), 0);
    assert_eq!(exit_code(&vec![(hyper.clone(), Risk::Medium)], &config, true, false), 1);
    assert_eq!(exit_code(&vec![(tokio, Risk::Low), (hyper, Risk::High)], &config, false, true), 1);
}

#[test]
fn threshold_validation_scenario() {
    let config = Config { medium_risk_threshold: 7000, low_risk_threshold: 7000, ..Config::default() };
    let err = config.validate().unwrap_err();
    assert!(err.message().contains("less than"));
}

#[test]
fn stale_cache_falls_back_on_failed_fetch() {
    let cached = classify_entry(Some(("payload".to_string(), 0)), 100, 50);
    assert!(matches!(cached, CacheResult::Stale(_)));
    assert!(needs_fetch(&cached));
    let r = resolve(stale_value(cached), Err("timeout".to_string()));
    assert!(matches!(r, ProviderResult::Found(ref s) if s == "payload"));
    let fresh = classify_entry(Some((7u32, 90)), 100, 50);
    assert!(matches!(fresh, CacheResult::Hit(7)));
    assert!(!needs_fetch(&fresh));
    let miss: CacheResult<u32> = classify_entry(None, 100, 50);
    assert!(matches!(resolve(stale_value(miss), Err("down".to_string())), ProviderResult::Error(ref e) if e == "down"));
    assert!(matches!(resolve(None, Ok(3u8)), ProviderResult::Found(3)));
}

#[test]
fn progress_stays_hidden_until_content_and_delay() {
    let mut p = ProgressReporter::new(500);
    assert!(!p.tick_visibility(1000));
    assert!(!p.visible);
    let effects = p.enable_determinate_mode(10, 1100);
    assert!(effects.reveal);
    assert!(p.visible);
    let mut q = ProgressReporter::new(500);
    assert!(!q.set_message("working", 100));
    assert!(!q.visible);
    assert!(q.tick_visibility(600));
    let mut s = ProgressReporter::new(0);
    assert!(s.enable_indeterminate_mode(0));
    assert!(s.enable_determinate_mode(3, 1).restore_bar);
    assert!(s.finish_and_clear());
}

#[test]
fn tracker_counts_and_message() {
    let mut t = RequestTracker::new();
    assert!(t.update_progress().is_none());
    let _ = t.add_request("hosting");
    let _ = t.add_many_requests("docs", 3);
    let _ = t.complete_request("docs");
    let u = t.complete_request("hosting").unwrap();
    assert_eq!(u.length, 4);
    assert_eq!(u.position, 2);
    assert_eq!(u.message, "1/3 docs, 1/1 hosting");
    // A completion beyond the issued count is not recorded.
    let u = t.complete_request("hosting").unwrap();
    assert_eq!(u.position, 2);
    assert_eq!(t.get_counter("hosting"), (1, 1));
    assert!(t.add_many_requests("docs", 0).is_none());
    assert_eq!(t.get_counter("never"), (0, 0));
}

#[test]
fn advisories_are_counted_per_dependency() {
    let specs = vec![
        CrateSpec::from_arcs("foo".to_string(), Version::new(1, 0, 0)),
        CrateSpec::from_arcs("bar".to_string(), Version::new(2, 0, 0)),
    ];
    let records = vec![
        AdvisoryRecord { package: "foo".to_string(), informational: None, severity: Some(Severity::High) },
        AdvisoryRecord { package: "foo".to_string(), informational: Some(Informational::Unmaintained), severity: None },
        AdvisoryRecord { package: "baz".to_string(), informational: None, severity: Some(Severity::Low) },
    ];
    let affects = vec![vec![true, false], vec![false, false], vec![true, true]];
    let r = scan_advisories(&specs, &records, &affects, 5);
    assert_eq!(r.len(), 2);
    assert_eq!(r[0].0.name, "foo");
    assert_eq!(r[1].0.name, "bar");
    match &r[0].1 {
        ProviderResult::Found(d) => {
            assert_eq!(d.vulnerability_count, 1);
            assert_eq!(d.high_vulnerability_count, 1);
            assert_eq!(d.historical_vulnerability_count, 1);
            assert_eq!(d.historical_warning_count, 1);
            assert_eq!(d.historical_unmaintained_warning_count, 1);
            assert_eq!(d.warning_count, 0);
            assert_eq!(d.timestamp, 5);
        },
        _ => panic!("expected data"),
    }
    match &r[1].1 {
        ProviderResult::Found(d) => assert_eq!(d.historical_vulnerability_count, 0),
        _ => panic!("expected data"),
    }
}

#[test]
fn dependency_type_lists() {
    let t = DependencyTypes::parse("dev, standard").unwrap();
    assert!(t.contains(DependencyType::Dev));
    assert!(!t.contains(DependencyType::Build));
    assert_eq!(t.to_text(), "dev, standard");
    assert!(DependencyTypes::parse("dev, bogus").is_err());
    assert_eq!(DependencyTypes::parse("").unwrap().to_text(), "(no types)");
    assert_eq!(t.intersect(&DependencyTypes::default()).iter(), vec![DependencyType::Standard]);
}

#[test]
fn provider_result_helpers() {
    let found: ProviderResult<u8> = ProviderResult::Found(1);
    assert!(found.is_found());
    assert_eq!(found.status_str(), "Found");
    assert_eq!(found.clone().ok(), Some(1));
    assert_eq!(found.into_result(), Ok(1));
    let missing: ProviderResult<u8> = ProviderResult::VersionNotFound;
    assert_eq!(missing.clone().into_result(), Err("version not found".to_string()));
    assert_eq!(missing.status_str(), "VersionNotFound");
    assert_eq!(MetricCategory::Usage.as_uppercase_str(), "USAGE");
    assert_eq!(Metric::RepoStarCount.category(), MetricCategory::Community);
    assert_eq!(Metric::HistoricalYankedWarningCount.name(), "historical_yanked_warning_count");
}
