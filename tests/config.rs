use aprz::config::{AllowListEntry, Config, ConfigError};
use aprz::version::{Version, VersionReq};

// Thresholds are written in hundredths of a point: 3000 is 30.

#[test]
fn test_default_config_is_valid() {
    let config = Config::default();
    config.validate().unwrap();
}

#[test]
fn test_validate_medium_risk_out_of_range_low() {
    let config = Config { medium_risk_threshold: -100, ..Config::default() };
    assert!(config.validate().is_err());
}

#[test]
fn test_validate_medium_risk_out_of_range_high() {
    let config = Config { medium_risk_threshold: 10100, ..Config::default() };
    assert!(config.validate().is_err());
}

#[test]
fn test_validate_low_risk_out_of_range_low() {
    let config = Config { low_risk_threshold: -100, ..Config::default() };
    assert!(config.validate().is_err());
}

#[test]
fn test_validate_low_risk_out_of_range_high() {
    let config = Config { low_risk_threshold: 10100, ..Config::default() };
    assert!(config.validate().is_err());
}

#[test]
fn test_validate_medium_ge_low_risk() {
    let config = Config { medium_risk_threshold: 8000, low_risk_threshold: 7000, ..Config::default() };
    assert!(config.validate().is_err());
}

#[test]
fn test_validate_medium_equals_low_risk() {
    let config = Config { medium_risk_threshold: 7000, low_risk_threshold: 7000, ..Config::default() };
    assert!(config.validate().is_err());
}

#[test]
fn test_validate_valid_thresholds() {
    let config = Config { medium_risk_threshold: 3000, low_risk_threshold: 7000, ..Config::default() };
    config.validate().unwrap();
}

#[test]
fn test_validate_boundary_values() {
    let config = Config { medium_risk_threshold: 0, low_risk_threshold: 10000, ..Config::default() };
    config.validate().unwrap();
}

#[test]
fn test_default_config_has_empty_allow_list() {
    let config = Config::default();
    assert!(config.allow_list.is_empty());
}

#[test]
fn test_allow_list_entry_matches_exact_version() {
    let entry = AllowListEntry { name: "foo".to_string(), version: VersionReq::parse("=1.2.3").unwrap() };
    assert!(entry.matches("foo", &Version::new(1, 2, 3)));
    assert!(!entry.matches("foo", &Version::new(1, 2, 4)));
    assert!(!entry.matches("bar", &Version::new(1, 2, 3)));
}

#[test]
fn test_allow_list_entry_matches_caret_range() {
    let entry = AllowListEntry { name: "foo".to_string(), version: VersionReq::parse("^1.0").unwrap() };
    assert!(entry.matches("foo", &Version::new(1, 0, 0)));
    assert!(entry.matches("foo", &Version::new(1, 9, 9)));
    assert!(!entry.matches("foo", &Version::new(2, 0, 0)));
}

#[test]
fn test_allow_list_entry_matches_wildcard() {
    let entry = AllowListEntry { name: "foo".to_string(), version: VersionReq::parse("*").unwrap() };
    assert!(entry.matches("foo", &Version::new(0, 0, 1)));
    assert!(entry.matches("foo", &Version::new(99, 99, 99)));
    assert!(!entry.matches("bar", &Version::new(1, 0, 0)));
}

#[test]
fn test_is_allowed_matches() {
    let mut config = Config::default();
    config.allow_list.push(AllowListEntry { name: "foo".to_string(), version: VersionReq::parse("^1.0").unwrap() });
    assert!(config.is_allowed("foo", &Version::new(1, 2, 3)));
    assert!(!config.is_allowed("foo", &Version::new(2, 0, 0)));
    assert!(!config.is_allowed("bar", &Version::new(1, 0, 0)));
}

#[test]
fn test_is_allowed_empty_list() {
    let config = Config::default();
    assert!(!config.is_allowed("foo", &Version::new(1, 0, 0)));
}

#[test]
fn validation_errors_name_the_constraint() {
    let c = Config { medium_risk_threshold: 7000, low_risk_threshold: 7000, ..Config::default() };
    let e = c.validate().unwrap_err();
    assert_eq!(e, ConfigError::ThresholdsOutOfOrder(7000, 7000));
    assert_eq!(e.message(), "medium_risk_threshold must be less than low_risk_threshold");
    let c = Config { medium_risk_threshold: -100, ..Config::default() };
    assert_eq!(c.validate().unwrap_err(), ConfigError::MediumThresholdOutOfRange(-100));
    let c = Config { low_risk_threshold: 10100, ..Config::default() };
    assert_eq!(c.validate().unwrap_err(), ConfigError::LowThresholdOutOfRange(10100));
}

#[test]
fn invalid_requirement_is_rejected() {
    assert!(VersionReq::parse("not a requirement").is_err());
    assert_eq!(VersionReq::parse("^1.0").unwrap().as_str(), "^1.0");
}

#[test]
fn wildcard_requirement_with_wildcard_name_only_matches_that_name() {
    let mut config = Config::default();
    config.allow_list.push(AllowListEntry { name: "*".to_string(), version: VersionReq::parse("*").unwrap() });
    assert!(config.is_allowed("*", &Version::new(3, 1, 4)));
    assert!(!config.is_allowed("foo", &Version::new(1, 2, 3)));
}

#[test]
fn default_cache_lifetimes_are_a_week() {
    let c = Config::default();
    assert_eq!(c.crates_cache_ttl, 7 * 24 * 3600);
    assert_eq!(c.advisories_cache_ttl, 604800);
    assert_eq!(c.medium_risk_threshold, 3000);
    assert_eq!(c.low_risk_threshold, 7000);
}
