use aprz::advisories::AdvisoryData;
use aprz::aggregate::{assemble_facts, pivot, ProviderResults};
use aprz::crate_spec::{by_repo, CrateSpec, RepoSpec};
use aprz::provider_result::ProviderResult;
use aprz::registry::{dependents, monthly_downloads};
use aprz::row_iter::RowIter;
use aprz::version::Version;

fn spec(name: &str, major: u64) -> CrateSpec {
    CrateSpec::from_arcs(name.to_string(), Version::new(major, 0, 0))
}

#[test]
fn pivot_puts_results_in_input_order() {
    let specs = vec![spec("a", 1), spec("b", 1), spec("c", 1)];
    let results = vec![
        (spec("c", 1), ProviderResult::Found(3u32)),
        (spec("a", 1), ProviderResult::CrateNotFound),
        (spec("a", 2), ProviderResult::Found(99)),
    ];
    let r = pivot(&specs, results);
    assert_eq!(r.len(), 3);
    assert!(matches!(r[0], ProviderResult::CrateNotFound));
    assert!(matches!(r[1], ProviderResult::Error(_)));
    assert!(matches!(r[2], ProviderResult::Found(3)));
}

#[test]
fn pivot_takes_the_first_result_for_a_spec() {
    let specs = vec![spec("a", 1)];
    let results = vec![(spec("a", 1), ProviderResult::Found(1u8)), (spec("a", 1), ProviderResult::Found(2u8))];
    assert!(matches!(pivot(&specs, results)[0], ProviderResult::Found(1)));
}

#[test]
fn specs_are_grouped_by_repository() {
    let repo = |name: &str| RepoSpec {
        host: "github.com".to_string(),
        owner: "o".to_string(),
        repo: name.to_string(),
        url: format!("https://github.com/o/{name}"),
    };
    let specs = vec![
        CrateSpec::from_arcs_with_repo("x".to_string(), Version::new(1, 0, 0), repo("one")),
        spec("lonely", 1),
        CrateSpec::from_arcs_with_repo("y".to_string(), Version::new(1, 0, 0), repo("two")),
        CrateSpec::from_arcs_with_repo("z".to_string(), Version::new(1, 0, 0), repo("one")),
    ];
    let groups = by_repo(&specs);
    assert_eq!(groups.len(), 2);
    assert_eq!(groups[0].0.repo, "one");
    assert_eq!(groups[0].1.iter().map(|s| s.name.as_str()).collect::<Vec<_>>(), vec!["x", "z"]);
    assert_eq!(groups[1].1.len(), 1);
}

#[test]
fn row_iter_yields_offsets() {
    let mut it = RowIter::new(8, 2);
    assert_eq!(it.size_hint(), (2, Some(2)));
    assert_eq!(it.next(5), Some(8));
    assert_eq!(it.next(3), Some(13));
    assert_eq!(it.next(4), None);
    assert_eq!(it.size_hint(), (0, Some(0)));
}

#[test]
fn downloads_are_summed_by_month_in_order() {
    let jan_2024 = 2024 * 12;
    let rows = vec![(jan_2024 + 1, 5u64), (jan_2024, 7), (jan_2024 + 1, 10), (jan_2024 - 1, 1)];
    let months = monthly_downloads(&rows);
    assert_eq!(months, vec![(jan_2024 - 1, 1), (jan_2024, 7), (jan_2024 + 1, 15)]);
    assert!(monthly_downloads(&vec![]).is_empty());
    assert_eq!(monthly_downloads(&vec![(3, u64::MAX), (3, 2)]), vec![(3, u64::MAX)]);
}

#[test]
fn facts_are_assembled_per_dependency() {
    let specs = vec![spec("a", 1), spec("b", 1)];
    let results = ProviderResults {
        crate_version: vec![],
        crate_overall: vec![(spec("b", 1), ProviderResult::CrateNotFound)],
        hosting: vec![],
        advisory: vec![(spec("b", 1), ProviderResult::Found(AdvisoryData::zero(1))), (spec("a", 1), ProviderResult::VersionNotFound)],
        codebase: vec![],
        coverage: vec![],
        docs: vec![],
    };
    let facts = assemble_facts(&specs, 42, results);
    assert_eq!(facts.len(), 2);
    assert_eq!(facts[0].collected_at, 42);
    assert!(matches!(facts[0].advisory_data, ProviderResult::VersionNotFound));
    assert!(matches!(facts[1].advisory_data, ProviderResult::Found(_)));
    assert!(matches!(facts[1].crate_overall_data, ProviderResult::CrateNotFound));
    assert!(matches!(facts[0].crate_overall_data, ProviderResult::Error(_)));
    assert!(!facts[1].is_complete());
}

#[test]
fn pivot_gives_a_repeated_spec_no_second_copy() {
    let specs = vec![spec("a", 1), spec("a", 1)];
    let results = vec![(spec("a", 1), ProviderResult::Found(5u8))];
    let r = pivot(&specs, results);
    assert!(matches!(r[0], ProviderResult::Found(5)));
    assert!(matches!(r[1], ProviderResult::Error(_)));
}

#[test]
fn dependents_are_counted_once_each() {
    let rows = vec![(7u64, 1u64), (3, 1), (7, 1), (5, 2), (3, 1), (9, 1)];
    assert_eq!(dependents(&rows, 1), vec![3, 7, 9]);
    assert_eq!(dependents(&rows, 2), vec![5]);
    assert!(dependents(&rows, 4).is_empty());
}
