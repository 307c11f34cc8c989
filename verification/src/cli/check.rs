//! `check`: the health of one package.
use vstd::prelude::*;
use crate::config::LicenseConfig;
use crate::ecosystems::{Ecosystem, PackageMetadata, ecosystem_named};
use crate::json::{opt_text, text_or, texts};
use crate::scoring::{
    CategoryScore, HealthScore, UNKNOWN_SCORE, adoption, bus_factor, calculate_total_score,
    community, dependency_tree, license, maintenance, total_score,
};
use crate::scoring::adoption::adoption_score;
use crate::scoring::dependency_tree::dependency_tree_score;
use crate::scoring::license::license_verdict;
use crate::scoring::maintenance::maintenance_score;
use crate::text::{ascii_lower, chars_of, decimal, decimal_string, joined, owned, string_between};

verus! {

/// The arguments of `check`.
pub struct CheckArgs {
    /// The package, as its registry names it, optionally followed by
    /// `@VERSION`.
    pub package: String,
    /// The ecosystem's name, where one is given.
    pub ecosystem: Option<String>,
    /// The report form.
    pub format: String,
    /// Whether to print only the one-line report.
    pub quiet: bool,
}

// ---------------------------------------------------------------------------
// NAME@VERSION
// ---------------------------------------------------------------------------

/// The position of the last '@' before position `n` of `s`, or -1.
pub open spec fn last_at_before(s: Seq<char>, n: int) -> int
    decreases n,
{
    if n <= 0 {
        -1
    } else if s[n - 1] == '@' {
        n - 1
    } else {
        last_at_before(s, n - 1)
    }
}

/// The position of the '@' that separates a version from the package name:
/// the last '@' of `s`, where it is not the first character (which starts a
/// scoped npm name such as "@types/node"); -1 where there is none.
pub open spec fn version_separator(s: Seq<char>) -> int {
    let i = last_at_before(s, s.len() as int);
    if i > 0 {
        i
    } else {
        -1
    }
}

/// The package name of a `NAME[@VERSION]` argument.
pub open spec fn spec_package_name(s: Seq<char>) -> Seq<char> {
    let i = version_separator(s);
    if i > 0 {
        s.take(i)
    } else {
        s
    }
}

/// The version asked for by a `NAME[@VERSION]` argument; none where no
/// version, or an empty one, follows the separator.
pub open spec fn spec_package_version(s: Seq<char>) -> Option<Seq<char>> {
    let i = version_separator(s);
    if i > 0 && i + 1 < s.len() {
        Some(s.skip(i + 1))
    } else {
        None
    }
}

/// A package and, where one was asked for, a version of it.
pub struct PackageSpec {
    pub name: String,
    pub version: Option<String>,
}

/// Splits a `NAME[@VERSION]` argument, such as "lodash@4.17.20" or
/// "@types/node@20.1.0", into the name and the version.
pub fn parse_package_spec(arg: &str) -> (r: PackageSpec)
    ensures
        r.name@ == spec_package_name(arg@),
        opt_text(r.version) == spec_package_version(arg@),
{
    let v = chars_of(arg);
    let mut n: usize = v.len();
    while n > 0 && v[n - 1] != '@'
        invariant
            v@ == arg@,
            n <= v.len(),
            last_at_before(arg@, arg@.len() as int) == last_at_before(arg@, n as int),
        decreases n,
    {
        n = n - 1;
    }
    if n >= 2 {
        let sep: usize = n - 1;
        let name = string_between(&v, 0, sep);
        assert(v@.subrange(0, sep as int) =~= arg@.take(sep as int));
        let version = if sep + 1 < v.len() {
            let rest = string_between(&v, sep + 1, v.len());
            assert(v@.subrange(sep + 1, v.len() as int) =~= arg@.skip(sep + 1));
            Some(rest)
        } else {
            None
        };
        PackageSpec { name, version }
    } else {
        PackageSpec { name: owned(arg), version: None }
    }
}

// ---------------------------------------------------------------------------
// Choosing the registry
// ---------------------------------------------------------------------------

/// The ecosystem that a given name chooses: the one named, npm when the name
/// is not known.
pub open spec fn chosen_ecosystem(name: Seq<char>) -> Ecosystem {
    match ecosystem_named(ascii_lower(name)) {
        Some(e) => e,
        None => Ecosystem::Npm,
    }
}

/// The registry to ask at attempt `k` (counting from 0) for a package, each
/// attempt being made only after the ones before it found no such package.
/// With an ecosystem named there is one attempt, at the registry it
/// chooses. With none named the ecosystem is inferred by asking npm, then
/// PyPI, then crates.io: the first that has the package is the one.
pub open spec fn attempt_of(name: Option<Seq<char>>, k: nat) -> Option<Ecosystem> {
    match name {
        Some(n) => if k == 0 {
            Some(chosen_ecosystem(n))
        } else {
            None
        },
        None => if k == 0 {
            Some(Ecosystem::Npm)
        } else if k == 1 {
            Some(Ecosystem::Pypi)
        } else if k == 2 {
            Some(Ecosystem::Crates)
        } else {
            None
        },
    }
}

/// The registry to ask at attempt `attempt`, or none when every registry
/// to be asked has been.
pub fn registry_attempt(name: Option<&str>, attempt: usize) -> (r: Option<Ecosystem>)
    ensures
        r == attempt_of(
            match name {
                Some(n) => Some(n@),
                None => None,
            },
            attempt as nat,
        ),
{
    match name {
        Some(n) => if attempt == 0 {
            match Ecosystem::from_str(n) {
                Some(e) => Some(e),
                None => Some(Ecosystem::Npm),
            }
        } else {
            None
        },
        None => if attempt == 0 {
            Some(Ecosystem::Npm)
        } else if attempt == 1 {
            Some(Ecosystem::Pypi)
        } else if attempt == 2 {
            Some(Ecosystem::Crates)
        } else {
            None
        },
    }
}

/// With no ecosystem named, every registry is asked, each once; with one
/// named, only the registry it chooses is asked.
pub proof fn law_inference_asks_each_registry_once(name: Seq<char>, e: Ecosystem)
    ensures
        exists|k: nat| k < 3 && #[trigger] attempt_of(None, k) == Some(e),
        forall|j: nat, k: nat|
            #![trigger attempt_of(None, j), attempt_of(None, k)]
            attempt_of(None, j) == attempt_of(None, k) && attempt_of(None, j) is Some ==> j == k,
        forall|k: nat| k >= 3 ==> #[trigger] attempt_of(None, k) is None,
        attempt_of(Some(name), 0) == Some(chosen_ecosystem(name)),
        forall|k: nat| k >= 1 ==> #[trigger] attempt_of(Some(name), k) is None,
{
    match e {
        Ecosystem::Npm => assert(attempt_of(None, 0) == Some(e)),
        Ecosystem::Pypi => assert(attempt_of(None, 1) == Some(e)),
        Ecosystem::Crates => assert(attempt_of(None, 2) == Some(e)),
    }
}

// ---------------------------------------------------------------------------
// The report
// ---------------------------------------------------------------------------

/// The license score of a package under the license settings.
pub open spec fn license_score_of(metadata: PackageMetadata, cfg: LicenseConfig) -> u8 {
    license_verdict(opt_text(metadata.license), texts(cfg.blocklist@), cfg.project_license@).0
}

/// The health score of a package with `vulns` known vulnerabilities.
pub open spec fn package_total(metadata: PackageMetadata, cfg: LicenseConfig, vulns: nat) -> int {
    total_score(
        maintenance_score(opt_text(metadata.latest_release_date)) as int,
        UNKNOWN_SCORE as int,
        UNKNOWN_SCORE as int,
        adoption_score(metadata.weekly_downloads) as int,
        license_score_of(metadata, cfg) as int,
        dependency_tree_score(vulns, metadata.dependencies@.len()) as int,
    )
}

/// The full health report of a package with `vulns` known vulnerabilities.
pub fn health_score(metadata: &PackageMetadata, cfg: &LicenseConfig, vulns: usize) -> (r:
    HealthScore)
    ensures
        r.total as int == package_total(*metadata, *cfg, vulns as nat),
        r.total as int == total_score(
            r.maintenance.score as int,
            r.bus_factor.score as int,
            r.community.score as int,
            r.adoption.score as int,
            r.license.score as int,
            r.dependencies.score as int,
        ),
        r.maintenance.score == maintenance_score(opt_text(metadata.latest_release_date)),
        r.maintenance.details@ == "Last release: "@ + text_or(
            opt_text(metadata.latest_release_date),
            "Unknown"@,
        ),
        r.bus_factor.score == UNKNOWN_SCORE,
        r.bus_factor.details@ == "1+ maintainers"@,
        r.community.score == UNKNOWN_SCORE,
        r.community.details@ == "Healthy"@,
        r.adoption.score == adoption_score(metadata.weekly_downloads),
        r.adoption.details@ == decimal(
            match metadata.weekly_downloads {
                Some(n) => n as nat,
                None => 0,
            },
        ) + " weekly downloads"@,
        (r.license.score, r.license.details@) == license_verdict(
            opt_text(metadata.license),
            texts(cfg.blocklist@),
            cfg.project_license@,
        ),
        r.dependencies.score == dependency_tree_score(vulns as nat, metadata.dependencies@.len()),
        r.dependencies.details@ == decimal(metadata.dependencies@.len()) + " deps, "@ + decimal(
            vulns as nat,
        ) + " vulns"@,
{
    let m_score: u8 = maintenance::calculate(metadata);
    let bus_factor: u8 = bus_factor::calculate(metadata);
    let community: u8 = community::calculate(metadata);
    let (l_score, l_details): (u8, String) = license::calculate(metadata, cfg);
    let d_score: u8 = dependency_tree::calculate(vulns, metadata.dependencies.len());
    let a_score: u8 = adoption::calculate(metadata);
    let total: u8 = calculate_total_score(
        m_score,
        bus_factor,
        community,
        a_score,
        l_score,
        d_score,
    );
    let m_details = match &metadata.latest_release_date {
        Some(d) => joined("Last release: ", d.as_str()),
        None => owned("Last release: Unknown"),
    };
    proof {
        reveal_strlit("Last release: Unknown");
        reveal_strlit("Last release: ");
        reveal_strlit("Unknown");
    }
    let downloads: u64 = match metadata.weekly_downloads {
        Some(n) => n,
        None => 0,
    };
    let mut a_details = decimal_string(downloads);
    a_details.append(" weekly downloads");
    let mut d_details = decimal_string(metadata.dependencies.len() as u64);
    d_details.append(" deps, ");
    let v = decimal_string(vulns as u64);
    d_details.append(v.as_str());
    d_details.append(" vulns");
    HealthScore {
        total,
        maintenance: CategoryScore { score: m_score, details: m_details },
        bus_factor: CategoryScore { score: bus_factor, details: owned("1+ maintainers") },
        community: CategoryScore { score: community, details: owned("Healthy") },
        adoption: CategoryScore { score: a_score, details: a_details },
        license: CategoryScore { score: l_score, details: l_details },
        dependencies: CategoryScore { score: d_score, details: d_details },
    }
}

/// A package's health score is the weighted average of its category scores
/// with the weights of the scoring table: maintenance 25%, bus factor 20%,
/// community 15%, adoption (from weekly downloads) 15%, license 15% and
/// dependency tree 10%, rounded to the nearest integer with halves upwards.
pub proof fn law_package_total_weights(metadata: PackageMetadata, cfg: LicenseConfig, vulns: nat)
    ensures
        package_total(metadata, cfg, vulns) == (25 * maintenance_score(
            opt_text(metadata.latest_release_date),
        ) + 20 * UNKNOWN_SCORE + 15 * UNKNOWN_SCORE + 15 * adoption_score(metadata.weekly_downloads)
            + 15 * license_score_of(metadata, cfg) + 10 * dependency_tree_score(
            vulns,
            metadata.dependencies@.len(),
        ) + 50) / 100,
{
}

} // verus!
