//! `scan`: every dependency of the project's manifests.
use vstd::prelude::*;
use crate::config::LicenseConfig;
use crate::ecosystems::PackageMetadata;
use crate::json::{
    Json, json_document, keys_in, keys_of, lemma_keys_distinct, lemma_member_well_formed, member,
    member_of, parse_json, parse_toml, texts, toml_document, well_formed,
};
use crate::scoring::{
    adoption, bus_factor, calculate_total_score, community, dependency_tree, license, maintenance,
};
use super::check::package_total;

verus! {

/// The arguments of `scan`.
pub struct ScanArgs {
    /// Fail when a package scores below this, in place of the configured
    /// threshold.
    pub fail_under: Option<u8>,
    /// Check only newly added dependencies.
    pub diff_only: bool,
    /// The report form.
    pub format: String,
}

/// The score under which a package fails: the one given on the command line,
/// else the configured one.
pub fn fail_threshold(fail_under: Option<u8>, configured: u8) -> (r: u8)
    ensures
        r == (match fail_under {
            Some(t) => t,
            None => configured,
        }),
{
    match fail_under {
        Some(t) => t,
        None => configured,
    }
}

/// The names of the dependencies that a manifest (package.json or
/// Cargo.toml) lists under `dependencies`, in order.
pub fn dependency_names(manifest: &Json) -> (r: Vec<String>)
    ensures
        texts(r@) == keys_of(member_of(*manifest, "dependencies"@)),
{
    keys_in(member(Some(manifest), "dependencies"))
}

/// The dependencies that a package.json text lists, in order and each once;
/// none where the text is not JSON.
pub fn json_manifest_dependencies(text: &str) -> (r: Vec<String>)
    ensures
        texts(r@) == (match json_document(text@) {
            Some(j) => keys_of(member_of(j, "dependencies"@)),
            None => Seq::empty(),
        }),
        texts(r@).no_duplicates(),
{
    manifest_dependencies(parse_json(text))
}

/// The dependencies that a Cargo.toml text lists under `[dependencies]`, in
/// order and each once; none where the text is not TOML.
pub fn toml_manifest_dependencies(text: &str) -> (r: Vec<String>)
    ensures
        texts(r@) == (match toml_document(text@) {
            Some(j) => keys_of(member_of(j, "dependencies"@)),
            None => Seq::empty(),
        }),
        texts(r@).no_duplicates(),
{
    manifest_dependencies(parse_toml(text))
}

fn manifest_dependencies(doc: Option<Json>) -> (r: Vec<String>)
    requires
        doc matches Some(j) ==> well_formed(j),
    ensures
        texts(r@) == (match doc {
            Some(j) => keys_of(member_of(j, "dependencies"@)),
            None => Seq::empty(),
        }),
        texts(r@).no_duplicates(),
{
    match doc {
        Some(j) => {
            let r = dependency_names(&j);
            proof {
                lemma_member_well_formed(j, "dependencies"@);
                lemma_keys_distinct(member_of(j, "dependencies"@));
            }
            r
        },
        None => {
            let r: Vec<String> = Vec::new();
            assert(texts(r@) =~= Seq::<Seq<char>>::empty());
            r
        },
    }
}

/// The health score of one scanned package with `vulns` known
/// vulnerabilities.
pub fn package_score(metadata: &PackageMetadata, cfg: &LicenseConfig, vulns: usize) -> (r: u8)
    ensures
        r as int == package_total(*metadata, *cfg, vulns as nat),
{
    let m_score: u8 = maintenance::calculate(metadata);
    let bus_factor: u8 = bus_factor::calculate(metadata);
    let community: u8 = community::calculate(metadata);
    let (l_score, _): (u8, String) = license::calculate(metadata, cfg);
    let d_score: u8 = dependency_tree::calculate(vulns, metadata.dependencies.len());
    let a_score: u8 = adoption::calculate(metadata);
    calculate_total_score(m_score, bus_factor, community, a_score, l_score, d_score)
}

/// How one scanned package fares.
#[derive(PartialEq, Eq, Structural, Clone, Copy, Debug)]
pub enum ScanStatus {
    /// Below the failing threshold.
    Fail,
    /// At or above the threshold but below 80.
    Warn,
    /// At or above both the threshold and 80.
    Pass,
}

/// How a package with `score` fares against the failing `threshold`.
pub open spec fn status_of(score: u8, threshold: u8) -> ScanStatus {
    if score < threshold {
        ScanStatus::Fail
    } else if score < 80 {
        ScanStatus::Warn
    } else {
        ScanStatus::Pass
    }
}

/// How a whole scan ends.
#[derive(PartialEq, Eq, Structural, Clone, Copy, Debug)]
pub enum ScanOutcome {
    /// No manifest listed a dependency.
    NothingScanned,
    /// Every scanned package met the threshold (or could not be looked up).
    Passed,
    /// Some package failed: the tool exits with status 1.
    Failed,
}

/// A package with `score` (none where its registry could not be read) fails
/// against `threshold`.
pub open spec fn fails(score: Option<u8>, threshold: u8) -> bool {
    match score {
        Some(s) => s < threshold,
        None => false,
    }
}

/// The number of failing packages among `scores`.
pub open spec fn failures_among(scores: Seq<Option<u8>>, threshold: u8) -> nat
    decreases scores.len(),
{
    if scores.len() == 0 {
        0
    } else {
        failures_among(scores.drop_last(), threshold) + if fails(scores.last(), threshold) {
            1nat
        } else {
            0nat
        }
    }
}

/// How a scan of `scanned` packages with `failures` failures ends.
pub open spec fn outcome_of(scanned: nat, failures: nat) -> ScanOutcome {
    if scanned == 0 {
        ScanOutcome::NothingScanned
    } else if failures > 0 {
        ScanOutcome::Failed
    } else {
        ScanOutcome::Passed
    }
}

/// A scan that records the packages with `scores` fails (and the tool exits
/// with status 1) exactly when some package scores below the threshold.
pub proof fn law_scan_fails_iff_a_package_fails(scores: Seq<Option<u8>>, threshold: u8)
    ensures
        (outcome_of(scores.len(), failures_among(scores, threshold)) == ScanOutcome::Failed) <==> (
        exists|i: int| 0 <= i < scores.len() && fails(#[trigger] scores[i], threshold)),
    decreases scores.len(),
{
    if scores.len() > 0 {
        let init = scores.drop_last();
        law_scan_fails_iff_a_package_fails(init, threshold);
        if exists|i: int| 0 <= i < init.len() && fails(#[trigger] init[i], threshold) {
            let i = choose|i: int| 0 <= i < init.len() && fails(#[trigger] init[i], threshold);
            assert(scores[i] == init[i]);
        }
        if exists|i: int| 0 <= i < scores.len() && fails(#[trigger] scores[i], threshold) {
            let i = choose|i: int| 0 <= i < scores.len() && fails(#[trigger] scores[i], threshold);
            if i < init.len() {
                assert(init[i] == scores[i]);
            }
        }
        if fails(scores.last(), threshold) {
            assert(fails(scores[scores.len() - 1], threshold));
        }
    }
}

/// The running count of a scan: packages scanned and packages that failed.
pub struct ScanTally {
    scanned: usize,
    failures: usize,
}

impl ScanTally {
    #[verifier::type_invariant]
    spec fn failures_within_scanned(&self) -> bool {
        self.failures <= self.scanned
    }

    /// The number of packages scanned so far.
    pub closed spec fn scanned_count(&self) -> nat {
        self.scanned as nat
    }

    /// The number of packages that failed so far.
    pub closed spec fn failure_count(&self) -> nat {
        self.failures as nat
    }

    /// A scan that has seen nothing yet.
    pub fn new() -> (r: ScanTally)
        ensures
            r.scanned_count() == 0,
            r.failure_count() == 0,
    {
        ScanTally { scanned: 0, failures: 0 }
    }

    /// The number of packages scanned so far.
    pub fn scanned(&self) -> (r: usize)
        ensures
            r == self.scanned_count(),
    {
        self.scanned
    }

    /// The number of packages that failed so far; never more than were
    /// scanned.
    pub fn failures(&self) -> (r: usize)
        ensures
            r == self.failure_count(),
            r <= self.scanned_count(),
    {
        proof {
            use_type_invariant(self);
        }
        self.failures
    }

    /// Counts one more dependency. `score` is its health score where its
    /// registry could be read; the result is then how it fares against
    /// `threshold`, and a failure is counted.
    pub fn record(&mut self, score: Option<u8>, threshold: u8) -> (r: Option<ScanStatus>)
        requires
            old(self).scanned_count() < usize::MAX,
        ensures
            final(self).scanned_count() == old(self).scanned_count() + 1,
            r == (match score {
                Some(s) => Some(status_of(s, threshold)),
                None => None,
            }),
            final(self).failure_count() == old(self).failure_count() + (if fails(score, threshold) {
                1int
            } else {
                0int
            }),
    {
        proof {
            use_type_invariant(&*self);
        }
        self.scanned = self.scanned + 1;
        match score {
            Some(s) => {
                if s < threshold {
                    self.failures = self.failures + 1;
                    Some(ScanStatus::Fail)
                } else if s < 80 {
                    Some(ScanStatus::Warn)
                } else {
                    Some(ScanStatus::Pass)
                }
            },
            None => None,
        }
    }

    /// How the scan ends: nothing scanned, all passed, or some failed.
    pub fn outcome(&self) -> (r: ScanOutcome)
        ensures
            r == outcome_of(self.scanned_count(), self.failure_count()),
    {
        if self.scanned == 0 {
            ScanOutcome::NothingScanned
        } else if self.failures > 0 {
            ScanOutcome::Failed
        } else {
            ScanOutcome::Passed
        }
    }
}

/// A scanned package fails exactly when it scores below the threshold; it
/// passes exactly when it scores at least the threshold and at least 80.
pub proof fn law_scan_status_bands(score: u8, threshold: u8)
    ensures
        status_of(score, threshold) == ScanStatus::Fail <==> score < threshold,
        status_of(score, threshold) == ScanStatus::Pass <==> (score >= threshold && score >= 80),
        status_of(score, threshold) == ScanStatus::Warn <==> (threshold <= score < 80),
{
}

} // verus!
