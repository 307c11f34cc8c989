use pkgrisk::cache::{entry_is_fresh, ttl_secs};
use pkgrisk::cli::check::{health_score, parse_package_spec, registry_attempt};
use pkgrisk::cli::scan::{dependency_names, fail_threshold, package_score, ScanOutcome, ScanStatus, ScanTally};
use pkgrisk::config::Config;
use pkgrisk::ecosystems::{Ecosystem, PackageMetadata};
use pkgrisk::json::{Json, Member};
use pkgrisk::output::{output_mode, quiet_line, OutputMode};

fn obj(entries: Vec<(&str, Json)>) -> Json {
    Json::Object(entries.into_iter().map(|(k, v)| Member { key: k.to_string(), value: v }).collect())
}

fn left_pad() -> PackageMetadata {
    PackageMetadata {
        name: "left-pad".to_string(),
        version: "1.3.0".to_string(),
        description: None,
        license: Some("WTFPL".to_string()),
        repository_url: None,
        latest_release_date: Some("2018-04-09".to_string()),
        dependencies: vec![],
        weekly_downloads: Some(2100000),
    }
}

#[test]
fn config_defaults() {
    let c = Config::default();
    assert_eq!(c.general.cache_ttl_hours, 24);
    assert_eq!(c.general.default_format, "terminal");
    assert_eq!(c.thresholds.fail_under, 40);
    assert_eq!(c.thresholds.warn_under, 65);
    assert_eq!(c.license.project_license, "MIT");
    assert_eq!(c.license.blocklist, vec!["AGPL-3.0".to_string(), "GPL-2.0".to_string()]);
    assert!(c.ecosystems.disabled.is_empty());
}

#[test]
fn ecosystem_selection() {
    assert_eq!(registry_attempt(None, 0), Some(Ecosystem::Npm));
    assert_eq!(registry_attempt(None, 1), Some(Ecosystem::Pypi));
    assert_eq!(registry_attempt(None, 2), Some(Ecosystem::Crates));
    assert_eq!(registry_attempt(None, 3), None);
    assert_eq!(registry_attempt(Some("pypi"), 0), Some(Ecosystem::Pypi));
    assert_eq!(registry_attempt(Some("pypi"), 1), None);
    assert_eq!(registry_attempt(Some("crates"), 0), Some(Ecosystem::Crates));
    assert_eq!(registry_attempt(Some("rubygems"), 0), Some(Ecosystem::Npm));
}

#[test]
fn package_name_and_version() {
    let s = parse_package_spec("lodash@4.17.20");
    assert_eq!((s.name.as_str(), s.version.as_deref()), ("lodash", Some("4.17.20")));
    let s = parse_package_spec("express");
    assert_eq!((s.name.as_str(), s.version.as_deref()), ("express", None));
    let s = parse_package_spec("@types/node");
    assert_eq!((s.name.as_str(), s.version.as_deref()), ("@types/node", None));
    let s = parse_package_spec("@types/node@20.1.0");
    assert_eq!((s.name.as_str(), s.version.as_deref()), ("@types/node", Some("20.1.0")));
    let s = parse_package_spec("lodash@");
    assert_eq!((s.name.as_str(), s.version.as_deref()), ("lodash", None));
    let s = parse_package_spec("");
    assert_eq!((s.name.as_str(), s.version.as_deref()), ("", None));
}

#[test]
fn health_report_of_left_pad() {
    let cfg = Config::default();
    let h = health_score(&left_pad(), &cfg.license, 0);
    assert_eq!(h.maintenance.score, 20);
    assert_eq!(h.maintenance.details, "Last release: 2018-04-09");
    assert_eq!(h.bus_factor.score, 50);
    assert_eq!(h.bus_factor.details, "1+ maintainers");
    assert_eq!(h.community.score, 50);
    assert_eq!(h.community.details, "Healthy");
    assert_eq!(h.adoption.score, 100);
    assert_eq!(h.adoption.details, "2100000 weekly downloads");
    assert_eq!(h.license.score, 100);
    assert_eq!(h.license.details, "Allowed: WTFPL");
    assert_eq!(h.dependencies.score, 100);
    assert_eq!(h.dependencies.details, "0 deps, 0 vulns");
    // 25*20 + 20*50 + 15*50 + 15*100 + 15*100 + 10*100 = 6250
    assert_eq!(h.total, 63);
    assert_eq!(package_score(&left_pad(), &cfg.license, 0), h.total);
}

#[test]
fn health_report_with_vulnerabilities_and_unknowns() {
    let cfg = Config::default();
    let mut m = left_pad();
    m.latest_release_date = None;
    m.weekly_downloads = None;
    m.license = None;
    m.dependencies = (0..12).map(|i| format!("d{}", i)).collect();
    let h = health_score(&m, &cfg.license, 3);
    assert_eq!(h.maintenance.details, "Last release: Unknown");
    assert_eq!(h.adoption.details, "0 weekly downloads");
    assert_eq!(h.adoption.score, 50);
    assert_eq!(h.license.details, "Unknown license");
    assert_eq!(h.dependencies.score, 0);
    assert_eq!(h.dependencies.details, "12 deps, 3 vulns");
    assert_eq!(h.total, package_score(&m, &cfg.license, 3));
}

#[test]
fn scan_thresholds_and_tally() {
    assert_eq!(fail_threshold(Some(50), 40), 50);
    assert_eq!(fail_threshold(None, 40), 40);
    let mut t = ScanTally::new();
    assert_eq!(t.outcome(), ScanOutcome::NothingScanned);
    assert_eq!(t.record(Some(92), 50), Some(ScanStatus::Pass));
    assert_eq!(t.record(Some(79), 50), Some(ScanStatus::Warn));
    assert_eq!(t.record(Some(50), 50), Some(ScanStatus::Warn));
    assert_eq!(t.outcome(), ScanOutcome::Passed);
    assert_eq!(t.record(None, 50), None);
    assert_eq!(t.record(Some(38), 50), Some(ScanStatus::Fail));
    assert_eq!(t.record(Some(85), 90), Some(ScanStatus::Fail));
    assert_eq!(t.scanned(), 6);
    assert_eq!(t.failures(), 2);
    assert_eq!(t.outcome(), ScanOutcome::Failed);
}

#[test]
fn manifest_dependency_names() {
    let pkg = obj(vec![
        ("name", Json::Str("app".to_string())),
        ("dependencies", obj(vec![("express", Json::Str("^4".to_string())), ("left-pad", Json::Str("1".to_string()))])),
    ]);
    assert_eq!(dependency_names(&pkg), vec!["express".to_string(), "left-pad".to_string()]);
    assert!(dependency_names(&obj(vec![("dependencies", Json::Array(vec![]))])).is_empty());
    assert!(dependency_names(&Json::Null).is_empty());
}

#[test]
fn output_modes_and_quiet_line() {
    assert_eq!(output_mode("json", false), OutputMode::Json);
    assert_eq!(output_mode("markdown", false), OutputMode::Markdown);
    assert_eq!(output_mode("terminal", false), OutputMode::Terminal);
    assert_eq!(output_mode("xml", false), OutputMode::Terminal);
    assert_eq!(output_mode("json", true), OutputMode::Quiet);
    let cfg = Config::default();
    let m = left_pad();
    let h = health_score(&m, &cfg.license, 0);
    assert_eq!(quiet_line(&m, &h), "left-pad 1.3.0 - 63/100 (Caution)");
}

#[test]
fn cache_lifetime_and_freshness() {
    assert_eq!(ttl_secs(24), 86400);
    assert_eq!(ttl_secs(0), 0);
    assert!(entry_is_fresh(1000, 1000, 0));
    assert!(entry_is_fresh(1100, 1000, 100));
    assert!(!entry_is_fresh(1101, 1000, 100));
    assert!(entry_is_fresh(900, 1000, 0));
}

#[test]
fn fresh_entries_were_fresh_before() {
    let (stored, ttl) = (5_000i64, 600u64);
    for now in (5_000u64..=5_600).rev() {
        assert!(entry_is_fresh(now, stored, ttl));
    }
    assert!(!entry_is_fresh(5_601, stored, ttl));
}

#[test]
fn scan_fails_exactly_when_a_package_fails() {
    let cases: [(&[Option<u8>], bool); 4] = [
        (&[Some(90), None, Some(60)], false),
        (&[Some(90), Some(39)], true),
        (&[None, None], false),
        (&[Some(40), Some(0), Some(100)], true),
    ];
    for (scores, failed) in cases {
        let mut t = ScanTally::new();
        for s in scores {
            t.record(*s, 40);
        }
        assert_eq!(t.outcome() == ScanOutcome::Failed, failed);
        assert_eq!(t.scanned(), scores.len());
    }
}

#[test]
fn adoption_follows_downloads_in_the_report() {
    let cfg = Config::default();
    let mut few = left_pad();
    few.weekly_downloads = Some(0);
    let mut many = left_pad();
    many.weekly_downloads = Some(1_000_000_000);
    let a = health_score(&few, &cfg.license, 0);
    let b = health_score(&many, &cfg.license, 0);
    assert_eq!((a.adoption.score, b.adoption.score), (20, 100));
    assert!(a.total < b.total);
}

#[test]
fn markdown_report_lines() {
    let cfg = Config::default();
    let m = left_pad();
    let h = health_score(&m, &cfg.license, 0);
    let lines = pkgrisk::output::markdown_report(&m, &h);
    assert_eq!(lines, vec![
        "## left-pad@1.3.0".to_string(),
        "**Health Score:** 63/100".to_string(),
        "".to_string(),
        "| Category | Score | Details |".to_string(),
        "|---|---|---|".to_string(),
        "| Maintenance | 20 | Last release: 2018-04-09 |".to_string(),
        "| Bus Factor | 50 | 1+ maintainers |".to_string(),
        "| Community | 50 | Healthy |".to_string(),
        "| Adoption | 100 | 2100000 weekly downloads |".to_string(),
        "| License | 100 | Allowed: WTFPL |".to_string(),
        "| Dependencies | 100 | 0 deps, 0 vulns |".to_string(),
    ]);
}

#[test]
fn manifests_are_read_from_their_text() {
    let pkg = r#"{"name": "app", "dependencies": {"left-pad": "1.3.0", "express": "^4.18.0"}, "devDependencies": {"jest": "29"}}"#;
    assert_eq!(pkgrisk::cli::scan::json_manifest_dependencies(pkg), vec!["express".to_string(), "left-pad".to_string()]);
    assert!(pkgrisk::cli::scan::json_manifest_dependencies("not json").is_empty());
    assert!(pkgrisk::cli::scan::json_manifest_dependencies("[1, 2]").is_empty());
    let cargo = "[package]\nname = \"x\"\n\n[dependencies]\nserde = { version = \"1\", features = [\"derive\"] }\nanyhow = \"1\"\n\n[dev-dependencies]\ntempfile = \"3\"\n";
    assert_eq!(pkgrisk::cli::scan::toml_manifest_dependencies(cargo), vec!["anyhow".to_string(), "serde".to_string()]);
    assert!(pkgrisk::cli::scan::toml_manifest_dependencies("[dependencies\n").is_empty());
    assert!(pkgrisk::cli::scan::toml_manifest_dependencies("[package]\nname = \"x\"\n").is_empty());
}

#[test]
fn documents_parse_into_the_model() {
    let j = pkgrisk::json::parse_json(r#"{"a": [1, -2, 2.5, true, null, "s"], "b": {"c": 18446744073709551615}}"#).unwrap();
    match &j {
        Json::Object(ms) => {
            assert_eq!(ms.len(), 2);
            assert_eq!(ms[0].key, "a");
            match &ms[0].value {
                Json::Array(items) => {
                    assert!(matches!(items[0], Json::Number(Some(1))));
                    assert!(matches!(items[1], Json::Number(None)));
                    assert!(matches!(items[2], Json::Number(None)));
                    assert!(matches!(items[3], Json::Bool(true)));
                    assert!(matches!(items[4], Json::Null));
                    assert!(matches!(&items[5], Json::Str(s) if s == "s"));
                }
                _ => panic!("not an array"),
            }
        }
        _ => panic!("not an object"),
    }
    assert!(pkgrisk::json::parse_json("{").is_none());
    let t = pkgrisk::json::parse_toml("n = 5\nneg = -1\nf = 1.5\nd = 1979-05-27\n").unwrap();
    match &t {
        Json::Object(ms) => {
            let keys: Vec<&str> = ms.iter().map(|m| m.key.as_str()).collect();
            assert_eq!(keys, vec!["d", "f", "n", "neg"]);
            assert!(matches!(&ms[0].value, Json::Str(s) if s == "1979-05-27"));
            assert!(matches!(ms[1].value, Json::Number(None)));
            assert!(matches!(ms[2].value, Json::Number(Some(5))));
            assert!(matches!(ms[3].value, Json::Number(None)));
        }
        _ => panic!("not a table"),
    }
    assert!(pkgrisk::json::parse_toml("= x").is_none());
}

#[test]
fn long_cache_lifetimes_keep_entries() {
    assert!(entry_is_fresh(u64::MAX, 0, u64::MAX));
    assert!(entry_is_fresh(1_000_000, 0, u64::MAX / 2));
    assert!(!entry_is_fresh(u64::MAX, i64::MIN, u64::MAX));
    assert!(!entry_is_fresh(u64::MAX, 0, 1));
}
