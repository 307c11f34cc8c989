use pkgrisk::ecosystems::{crates, npm, osv, pypi, Ecosystem};
use pkgrisk::json::{Json, Member};

fn s(x: &str) -> Json {
    Json::Str(x.to_string())
}

fn obj(entries: Vec<(&str, Json)>) -> Json {
    Json::Object(entries.into_iter().map(|(k, v)| Member { key: k.to_string(), value: v }).collect())
}

#[test]
fn ecosystem_from_str() {
    assert_eq!(Ecosystem::from_str("npm"), Some(Ecosystem::Npm));
    assert_eq!(Ecosystem::from_str("NPM"), Some(Ecosystem::Npm));
    assert_eq!(Ecosystem::from_str("PyPI"), Some(Ecosystem::Pypi));
    assert_eq!(Ecosystem::from_str("crates"), Some(Ecosystem::Crates));
    assert_eq!(Ecosystem::from_str("Crates.IO"), Some(Ecosystem::Crates));
    assert_eq!(Ecosystem::from_str("cargo"), Some(Ecosystem::Crates));
    assert_eq!(Ecosystem::from_str("pip"), None);
    assert_eq!(Ecosystem::from_str(""), None);
    assert_eq!(Ecosystem::from_str(" npm"), None);
}

#[test]
fn ecosystem_from_str_agrees_with_unicode_lowercasing() {
    let names = ["npm", "pypi", "crates", "crates.io", "cargo"];
    for input in ["NPM", "PYPI", "CARGO", "\u{212A}", "\u{130}", "CRATES.\u{130}O", "Npm\u{212A}", "pypİ"] {
        let lowered = input.to_lowercase();
        let expected = names.iter().any(|n| *n == lowered);
        assert_eq!(Ecosystem::from_str(input).is_some(), expected, "{}", input);
    }
}

#[test]
fn ecosystem_names_round_trip() {
    for e in [Ecosystem::Npm, Ecosystem::Pypi, Ecosystem::Crates] {
        assert_eq!(Ecosystem::from_str(e.as_str()), Some(e));
    }
    assert_eq!(Ecosystem::Npm.as_str(), "npm");
    assert_eq!(Ecosystem::Pypi.as_str(), "pypi");
    assert_eq!(Ecosystem::Crates.as_str(), "crates");
}

fn npm_doc() -> Json {
    obj(vec![
        ("description", s("Pad a string on the left")),
        ("dist-tags", obj(vec![("latest", s("1.3.0"))])),
        ("license", s("WTFPL")),
        ("repository", obj(vec![("type", s("git")), ("url", s("git+https://github.com/stevemao/left-pad.git"))])),
        ("time", obj(vec![("1.2.0", s("2017-01-01")), ("1.3.0", s("2018-04-09T01:23:45Z"))])),
        ("versions", obj(vec![
            ("1.2.0", obj(vec![("dependencies", obj(vec![("old", s("1"))]))])),
            ("1.3.0", obj(vec![("dependencies", obj(vec![("a", s("^1")), ("b", s("^2"))]))])),
        ])),
    ])
}

#[test]
fn npm_metadata() {
    let downloads = obj(vec![("downloads", Json::Number(Some(2100000))), ("package", s("left-pad"))]);
    let m = npm::metadata_from("left-pad", &npm_doc(), Some(&downloads), None);
    assert_eq!(m.name, "left-pad");
    assert_eq!(m.version, "1.3.0");
    assert_eq!(m.description.as_deref(), Some("Pad a string on the left"));
    assert_eq!(m.license.as_deref(), Some("WTFPL"));
    assert_eq!(m.repository_url.as_deref(), Some("https://github.com/stevemao/left-pad.git"));
    assert_eq!(m.latest_release_date.as_deref(), Some("2018-04-09T01:23:45Z"));
    assert_eq!(m.dependencies, vec!["a".to_string(), "b".to_string()]);
    assert_eq!(m.weekly_downloads, Some(2100000));
}

#[test]
fn npm_metadata_of_sparse_document() {
    let doc = obj(vec![("repository", obj(vec![("url", s("git://github.com/x/y"))])), ("license", Json::Null)]);
    let m = npm::metadata_from("x", &doc, None, None);
    assert_eq!(m.version, "unknown");
    assert_eq!(m.repository_url.as_deref(), Some("https://github.com/x/y"));
    assert_eq!(m.license, None);
    assert_eq!(m.description, None);
    assert_eq!(m.latest_release_date, None);
    assert!(m.dependencies.is_empty());
    assert_eq!(m.weekly_downloads, None);
    let m = npm::metadata_from("x", &Json::Array(vec![]), Some(&obj(vec![])), None);
    assert_eq!(m.weekly_downloads, Some(0));
}

#[test]
fn npm_downloads_and_urls() {
    assert_eq!(npm::downloads_from(&obj(vec![("downloads", Json::Number(Some(5)))])), 5);
    assert_eq!(npm::downloads_from(&obj(vec![("downloads", Json::Number(None))])), 0);
    assert_eq!(npm::downloads_from(&Json::Null), 0);
    assert_eq!(npm::metadata_url("express"), "https://registry.npmjs.org/express");
    assert_eq!(npm::downloads_url("express"), "https://api.npmjs.org/downloads/point/last-week/express");
}

#[test]
fn pypi_metadata() {
    let doc = obj(vec![
        ("info", obj(vec![
            ("license", s("Apache 2.0")),
            ("project_urls", obj(vec![("Homepage", s("https://requests.readthedocs.io")), ("Source", s("https://github.com/psf/requests"))])),
            ("requires_dist", Json::Array(vec![
                s("charset_normalizer<4,>=2"),
                s("idna <4, >=2.5"),
                Json::Number(Some(3)),
                s("   "),
                s("PySocks!=1.5.7,>=1.5.6; extra == \"socks\""),
            ])),
            ("summary", s("Python HTTP for Humans.")),
            ("version", s("2.31.0")),
        ])),
        ("releases", obj(vec![("2.31.0", Json::Array(vec![
            obj(vec![("upload_time", s("2023-05-22T15:12:42"))]),
            obj(vec![("upload_time", s("2023-05-22T15:12:44"))]),
        ]))])),
    ]);
    let m = pypi::metadata_from("requests", &doc, None);
    assert_eq!(m.name, "requests");
    assert_eq!(m.version, "2.31.0");
    assert_eq!(m.description.as_deref(), Some("Python HTTP for Humans."));
    assert_eq!(m.license.as_deref(), Some("Apache 2.0"));
    assert_eq!(m.repository_url.as_deref(), Some("https://github.com/psf/requests"));
    assert_eq!(m.latest_release_date.as_deref(), Some("2023-05-22T15:12:42"));
    assert_eq!(m.dependencies, vec!["charset_normalizer<4,>=2".to_string(), "idna".to_string(), "PySocks!=1.5.7,>=1.5.6;".to_string()]);
    assert_eq!(m.weekly_downloads, None);
}

#[test]
fn pypi_project_url_prefers_source_entry() {
    let with_null_source = obj(vec![("info", obj(vec![
        ("project_urls", obj(vec![("Homepage", s("https://h")), ("Source", Json::Null)])),
    ]))]);
    assert_eq!(pypi::metadata_from("p", &with_null_source, None).repository_url, None);
    let homepage_only = obj(vec![("info", obj(vec![("project_urls", obj(vec![("Homepage", s("https://h"))]))]))]);
    assert_eq!(pypi::metadata_from("p", &homepage_only, None).repository_url.as_deref(), Some("https://h"));
    let m = pypi::metadata_from("p", &Json::Null, None);
    assert_eq!(m.version, "unknown");
    assert_eq!(m.latest_release_date, None);
    assert_eq!(pypi::metadata_url("requests", None), "https://pypi.org/pypi/requests/json");
}

#[test]
fn crates_metadata() {
    let doc = obj(vec![("crate", obj(vec![
        ("description", s("A serialization framework")),
        ("exact_match_license", Json::Null),
        ("license", s("MIT OR Apache-2.0")),
        ("max_version", s("1.0.200")),
        ("recent_downloads", Json::Number(Some(40000000))),
        ("repository", s("https://github.com/serde-rs/serde")),
        ("updated_at", s("2024-05-01T00:00:00Z")),
    ]))]);
    let deps = obj(vec![("dependencies", Json::Array(vec![
        obj(vec![("crate_id", s("serde_derive")), ("kind", s("normal"))]),
        obj(vec![("crate_id", s("serde_json")), ("kind", s("dev"))]),
        obj(vec![("kind", s("normal"))]),
        obj(vec![("crate_id", s("itoa")), ("kind", s("normal"))]),
    ]))]);
    assert_eq!(crates::version_from(&doc, None), "1.0.200");
    let m = crates::metadata_from("serde", &doc, Some(&deps), None);
    assert_eq!(m.version, "1.0.200");
    assert_eq!(m.license.as_deref(), Some("MIT OR Apache-2.0"));
    assert_eq!(m.description.as_deref(), Some("A serialization framework"));
    assert_eq!(m.repository_url.as_deref(), Some("https://github.com/serde-rs/serde"));
    assert_eq!(m.latest_release_date.as_deref(), Some("2024-05-01T00:00:00Z"));
    assert_eq!(m.dependencies, vec!["serde_derive".to_string(), "itoa".to_string()]);
    assert_eq!(m.weekly_downloads, Some(40000000));
    let m = crates::metadata_from("serde", &doc, None, None);
    assert!(m.dependencies.is_empty());
    assert_eq!(crates::metadata_url("serde"), "https://crates.io/api/v1/crates/serde");
    assert_eq!(crates::dependencies_url("serde", "1.0.200"), "https://crates.io/api/v1/crates/serde/1.0.200/dependencies");
}

#[test]
fn crates_exact_license_first() {
    let doc = obj(vec![("crate", obj(vec![("exact_match_license", s("MIT")), ("license", s("Apache-2.0"))]))]);
    assert_eq!(crates::metadata_from("c", &doc, None, None).license.as_deref(), Some("MIT"));
    assert_eq!(crates::version_from(&Json::Null, None), "unknown");
}

#[test]
fn osv_queries_and_answers() {
    let q = osv::query_for("lodash", "npm", "4.17.20").unwrap();
    assert_eq!((q.name.as_str(), q.ecosystem.as_str(), q.version.as_str()), ("lodash", "npm", "4.17.20"));
    assert_eq!(osv::query_for("requests", "pypi", "2.0").unwrap().ecosystem, "PyPI");
    assert_eq!(osv::query_for("serde", "crates", "1.0").unwrap().ecosystem, "crates.io");
    assert!(osv::query_for("x", "maven", "1").is_none());
    assert!(osv::query_for("x", "NPM", "1").is_none());
    let answer = obj(vec![("vulns", Json::Array(vec![obj(vec![]), obj(vec![])]))]);
    assert_eq!(osv::vulnerability_count(&answer), 2);
    assert_eq!(osv::vulnerability_count(&obj(vec![])), 0);
    assert_eq!(osv::query_url(), "https://api.osv.dev/v1/query");
}

#[test]
fn npm_metadata_of_requested_version() {
    let m = npm::metadata_from("left-pad", &npm_doc(), None, Some("1.2.0"));
    assert_eq!(m.version, "1.2.0");
    assert_eq!(m.latest_release_date.as_deref(), Some("2017-01-01"));
    assert_eq!(m.dependencies, vec!["old".to_string()]);
    let m = npm::metadata_from("left-pad", &npm_doc(), None, Some("9.9.9"));
    assert_eq!(m.version, "9.9.9");
    assert_eq!(m.latest_release_date, None);
    assert!(m.dependencies.is_empty());
}

#[test]
fn pypi_metadata_of_requested_version() {
    assert_eq!(pypi::metadata_url("requests", Some("2.0.0")), "https://pypi.org/pypi/requests/2.0.0/json");
    let doc = obj(vec![
        ("info", obj(vec![("version", s("2.0.0"))])),
        ("urls", Json::Array(vec![obj(vec![("upload_time", s("2013-09-24T00:00:00"))])])),
    ]);
    let m = pypi::metadata_from("requests", &doc, Some("2.0.0"));
    assert_eq!(m.version, "2.0.0");
    assert_eq!(m.latest_release_date.as_deref(), Some("2013-09-24T00:00:00"));
}

#[test]
fn crates_metadata_of_requested_version() {
    let doc = obj(vec![
        ("crate", obj(vec![("max_version", s("1.0.200")), ("updated_at", s("2024-05-01"))])),
        ("versions", Json::Array(vec![
            obj(vec![("created_at", s("2024-05-01")), ("num", s("1.0.200"))]),
            obj(vec![("created_at", s("2021-01-01")), ("num", s("1.0.100"))]),
        ])),
    ]);
    assert_eq!(crates::version_from(&doc, Some("1.0.100")), "1.0.100");
    let m = crates::metadata_from("serde", &doc, None, Some("1.0.100"));
    assert_eq!(m.version, "1.0.100");
    assert_eq!(m.latest_release_date.as_deref(), Some("2021-01-01"));
    let m = crates::metadata_from("serde", &doc, None, Some("0.1.0"));
    assert_eq!(m.latest_release_date, None);
    let m = crates::metadata_from("serde", &doc, None, None);
    assert_eq!(m.latest_release_date.as_deref(), Some("2024-05-01"));
}

#[test]
fn ecosystem_names_ignore_case() {
    for name in ["npm", "PyPI", "Crates.IO", "CARGO", "maven", "nPm"] {
        let lower: String = name.chars().map(|c| c.to_ascii_lowercase()).collect();
        assert_eq!(Ecosystem::from_str(name), Ecosystem::from_str(&lower));
    }
}
