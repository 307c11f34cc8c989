use pkgrisk::config::{Config, LicenseConfig};
use pkgrisk::ecosystems::PackageMetadata;
use pkgrisk::scoring::{adoption, calculate_total_score, dependency_tree, license, maintenance, Verdict};

fn metadata_with(date: Option<&str>, lic: Option<&str>) -> PackageMetadata {
    PackageMetadata {
        name: "pkg".to_string(),
        version: "1.0.0".to_string(),
        description: None,
        license: lic.map(|s| s.to_string()),
        repository_url: None,
        latest_release_date: date.map(|s| s.to_string()),
        dependencies: vec![],
        weekly_downloads: None,
    }
}

#[test]
fn dependency_tree_scores() {
    assert_eq!(dependency_tree::calculate(1, 0), 0);
    assert_eq!(dependency_tree::calculate(3, 100), 0);
    assert_eq!(dependency_tree::calculate(0, 51), 50);
    assert_eq!(dependency_tree::calculate(0, 50), 80);
    assert_eq!(dependency_tree::calculate(0, 11), 80);
    assert_eq!(dependency_tree::calculate(0, 10), 100);
    assert_eq!(dependency_tree::calculate(0, 0), 100);
}

#[test]
fn dependency_tree_never_rewards_vulnerabilities_or_size() {
    for n in 0..120usize {
        assert!(dependency_tree::calculate(0, n + 1) <= dependency_tree::calculate(0, n));
        assert!(dependency_tree::calculate(1, n) <= dependency_tree::calculate(0, n));
    }
}

#[test]
fn maintenance_scores_by_release_year() {
    assert_eq!(maintenance::calculate(&metadata_with(Some("2026-02-01T00:00:00Z"), None)), 90);
    assert_eq!(maintenance::calculate(&metadata_with(Some("2025-11-30"), None)), 90);
    assert_eq!(maintenance::calculate(&metadata_with(Some("2024"), None)), 90);
    assert_eq!(maintenance::calculate(&metadata_with(Some("2023-05-01"), None)), 60);
    assert_eq!(maintenance::calculate(&metadata_with(Some("2019-01-01"), None)), 20);
    assert_eq!(maintenance::calculate(&metadata_with(Some("202"), None)), 20);
    assert_eq!(maintenance::calculate(&metadata_with(Some(""), None)), 20);
    assert_eq!(maintenance::calculate(&metadata_with(None, None)), 50);
}

#[test]
fn license_scores() {
    let cfg = Config::default().license;
    let (s, d) = license::calculate(&metadata_with(None, Some("MIT")), &cfg);
    assert_eq!((s, d.as_str()), (100, "Allowed: MIT"));
    let (s, d) = license::calculate(&metadata_with(None, Some("AGPL-3.0-only")), &cfg);
    assert_eq!((s, d.as_str()), (0, "Blocked license: AGPL-3.0-only"));
    let (s, d) = license::calculate(&metadata_with(None, Some("LGPL-2.0")), &cfg);
    assert_eq!((s, d.as_str()), (0, "Blocked license: LGPL-2.0"));
    let (s, d) = license::calculate(&metadata_with(None, Some("GPL-3.0")), &cfg);
    assert_eq!((s, d.as_str()), (25, "Conflicts with project license MIT: GPL-3.0"));
    let (s, d) = license::calculate(&metadata_with(None, Some("LGPL-3.0")), &cfg);
    assert_eq!((s, d.as_str()), (100, "Allowed: LGPL-3.0"));
    let (s, d) = license::calculate(&metadata_with(None, None), &cfg);
    assert_eq!((s, d.as_str()), (50, "Unknown license"));
}

#[test]
fn license_with_empty_blocklist_entry_blocks_everything() {
    let cfg = LicenseConfig { project_license: "MIT".to_string(), blocklist: vec!["".to_string()] };
    let (s, _) = license::calculate(&metadata_with(None, Some("MIT")), &cfg);
    assert_eq!(s, 0);
    let none = LicenseConfig { project_license: "GPL-3.0".to_string(), blocklist: vec![] };
    let (s, _) = license::calculate(&metadata_with(None, Some("AGPL-3.0")), &none);
    assert_eq!(s, 100);
}

#[test]
fn license_conflicts_with_permissive_project() {
    let mit = LicenseConfig { project_license: "MIT".to_string(), blocklist: vec![] };
    let (s, d) = license::calculate(&metadata_with(None, Some("GPL-3.0")), &mit);
    assert_eq!((s, d.as_str()), (25, "Conflicts with project license MIT: GPL-3.0"));
    assert!(s < 100);
    let (s, _) = license::calculate(&metadata_with(None, Some("Apache-2.0")), &mit);
    assert_eq!(s, 100);
    assert!(!license::license_conflicts("MIT", "MIT"));
    assert!(!license::license_conflicts("GPL-2.0", "GPL-2.0"));
    assert!(license::license_conflicts("AGPL-3.0", "LGPL-2.1"));
    assert!(!license::license_conflicts("LGPL-2.1", "MIT"));
}

#[test]
fn adoption_scores_by_downloads() {
    let with = |n: Option<u64>| {
        let mut m = metadata_with(None, None);
        m.weekly_downloads = n;
        adoption::calculate(&m)
    };
    assert_eq!(with(Some(1_000_000_000)), 100);
    assert_eq!(with(Some(1_000_000)), 100);
    assert_eq!(with(Some(999_999)), 90);
    assert_eq!(with(Some(100_000)), 90);
    assert_eq!(with(Some(10_000)), 80);
    assert_eq!(with(Some(1_000)), 60);
    assert_eq!(with(Some(100)), 40);
    assert_eq!(with(Some(99)), 20);
    assert_eq!(with(Some(0)), 20);
    assert_eq!(with(None), 50);
    let mut last = 0;
    for n in [0u64, 5, 99, 100, 500, 1_000, 9_999, 10_000, 100_000, 1_000_000, u64::MAX] {
        let a = with(Some(n));
        assert!(a >= last);
        last = a;
    }
}

#[test]
fn total_score_weights() {
    assert_eq!(calculate_total_score(100, 100, 100, 100, 100, 100), 100);
    assert_eq!(calculate_total_score(0, 0, 0, 0, 0, 0), 0);
    assert_eq!(calculate_total_score(100, 0, 0, 0, 0, 0), 25);
    assert_eq!(calculate_total_score(0, 100, 0, 0, 0, 0), 20);
    assert_eq!(calculate_total_score(0, 0, 100, 0, 0, 0), 15);
    assert_eq!(calculate_total_score(0, 0, 0, 100, 0, 0), 15);
    assert_eq!(calculate_total_score(0, 0, 0, 0, 100, 0), 15);
    assert_eq!(calculate_total_score(0, 0, 0, 0, 0, 100), 10);
    assert_eq!(calculate_total_score(90, 50, 50, 80, 100, 100), 77);
    // 0.5 rounds upwards.
    assert_eq!(calculate_total_score(2, 0, 0, 0, 0, 0), 1);
    assert_eq!(calculate_total_score(255, 255, 255, 255, 255, 255), 255);
}

#[test]
fn total_score_of_equal_scores_is_that_score() {
    for s in 0..=255u8 {
        assert_eq!(calculate_total_score(s, s, s, s, s, s), s);
    }
}

#[test]
fn total_score_agrees_with_float_weighted_average_away_from_halves() {
    let vals = [0u8, 7, 13, 20, 33, 49, 50, 51, 66, 79, 80, 99, 100];
    for &m in &vals {
        for &b in &vals {
            for &c in &vals {
                for &d in &vals {
                    let (a, l) = (c / 2 + 3, 100 - b);
                    let exact = 25 * m as u32 + 20 * b as u32 + 15 * c as u32
                        + 15 * a as u32 + 15 * l as u32 + 10 * d as u32;
                    if exact % 100 == 50 {
                        continue;
                    }
                    let f = (m as f32 * 0.25 + b as f32 * 0.20 + c as f32 * 0.15
                        + a as f32 * 0.15 + l as f32 * 0.15 + d as f32 * 0.10)
                        .round() as u8;
                    assert_eq!(calculate_total_score(m, b, c, a, l, d), f);
                }
            }
        }
    }
}

#[test]
fn total_score_stays_in_range_and_is_monotone() {
    let vals = [0u8, 1, 49, 50, 99, 100];
    for &x in &vals {
        for &y in &vals {
            let t = calculate_total_score(x, y, x, y, x, y);
            assert!(t <= 100);
            let up = calculate_total_score(x, y, x, y, x, y.saturating_add(1).min(100));
            assert!(up >= t);
        }
    }
}

#[test]
fn verdict_thresholds() {
    assert_eq!(Verdict::from_total(100), Verdict::Healthy);
    assert_eq!(Verdict::from_total(80), Verdict::Healthy);
    assert_eq!(Verdict::from_total(79), Verdict::Caution);
    assert_eq!(Verdict::from_total(50), Verdict::Caution);
    assert_eq!(Verdict::from_total(49), Verdict::Risky);
    assert_eq!(Verdict::from_total(0), Verdict::Risky);
    assert_eq!(Verdict::Healthy.label(), "Healthy");
    assert_eq!(Verdict::Caution.label(), "Caution");
    assert_eq!(Verdict::Risky.label(), "Risky");
}

#[test]
fn readme_example_scores_risky() {
    assert_eq!(Verdict::from_total(38), Verdict::Risky);
}

#[test]
fn license_expressions_conflict_only_when_every_choice_is_copyleft() {
    let mit = LicenseConfig { project_license: "MIT".to_string(), blocklist: vec![] };
    let score = |l: &str| license::calculate(&metadata_with(None, Some(l)), &mit);
    assert_eq!(score("MIT OR GPL-3.0"), (100, "Allowed: MIT OR GPL-3.0".to_string()));
    assert_eq!(score("GPL-3.0 OR MIT"), (100, "Allowed: GPL-3.0 OR MIT".to_string()));
    assert_eq!(score("MIT/GPL-3.0").0, 100);
    assert_eq!(score("GPL-2.0 OR GPL-3.0").0, 25);
    assert_eq!(score("GPL-2.0/AGPL-3.0").0, 25);
    assert_eq!(score("MIT AND GPL-3.0").0, 25);
    assert_eq!(score("MIT AND Apache-2.0").0, 100);
    assert_eq!(score("LGPL-2.1 OR GPL-3.0").0, 100);
    assert_eq!(score("(MIT AND GPL-3.0) OR Apache-2.0").0, 100);
    assert!(license::license_requires_copyleft("GPL-3.0-or-later"));
    assert!(!license::license_requires_copyleft("Apache-2.0 OR MIT"));
    assert!(!license::license_conflicts("MIT OR GPL-3.0", "MIT"));
    assert!(license::license_conflicts("GPL-3.0", "GPL-3.0 OR MIT"));
    assert!(!license::license_conflicts("GPL-3.0", "GPL-2.0 OR GPL-3.0"));
}

#[test]
fn bus_factor_and_community_are_unknown() {
    let m = metadata_with(Some("2025-01-01"), Some("MIT"));
    assert_eq!(pkgrisk::scoring::bus_factor::calculate(&m), 50);
    assert_eq!(pkgrisk::scoring::community::calculate(&m), 50);
}
