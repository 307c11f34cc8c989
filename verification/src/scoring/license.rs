//! License compatibility: the configured blocklist, and conflicts with the
//! project's own license.
use vstd::prelude::*;
use crate::config::LicenseConfig;
use crate::ecosystems::PackageMetadata;
use crate::json::{opt_text, texts};
use crate::text::{contains, has_substring, joined, split_by, split_text};

verus! {

/// The score of a dependency whose license conflicts with the project's.
pub const CONFLICT_SCORE: u8 = 25;

/// Some entry of `blocklist` occurs in the license text `license`.
pub open spec fn is_blocked(license: Seq<char>, blocklist: Seq<Seq<char>>) -> bool {
    exists|i: int| 0 <= i < blocklist.len() && has_substring(license, #[trigger] blocklist[i])
}

/// A single license identifier names a strong copyleft license: it names
/// the GPL family ("GPL", which "AGPL" contains too) but not the lesser GPL
/// ("LGPL").
pub open spec fn names_strong_copyleft(id: Seq<char>) -> bool {
    has_substring(id, "GPL"@) && !has_substring(id, "LGPL"@)
}

/// A conjunction of licenses ("A AND B") binds the user to strong copyleft
/// when any of its parts names a strong copyleft license.
pub open spec fn conjunction_is_copyleft(alt: Seq<char>) -> bool {
    let parts = split_by(alt, " AND "@);
    exists|k: int| 0 <= k < parts.len() && names_strong_copyleft(#[trigger] parts[k])
}

/// A choice written with "/" ("MIT/Apache-2.0") binds the user to strong
/// copyleft when every alternative does.
pub open spec fn slash_choice_is_copyleft(choice: Seq<char>) -> bool {
    let alts = split_by(choice, "/"@);
    forall|k: int| 0 <= k < alts.len() ==> conjunction_is_copyleft(#[trigger] alts[k])
}

/// A license expression binds the user to strong copyleft when every
/// alternative joined by " OR " (or by "/") does; an alternative joined by
/// " AND " does when any of its parts names a strong copyleft license.
/// Operators bind as written: " OR " loosest, then "/", then " AND ";
/// parentheses are not read as grouping.
pub open spec fn requires_strong_copyleft(license: Seq<char>) -> bool {
    let choices = split_by(license, " OR "@);
    forall|k: int| 0 <= k < choices.len() ==> slash_choice_is_copyleft(#[trigger] choices[k])
}

/// A dependency under `license` conflicts with a project under `project`
/// when the dependency binds its user to strong copyleft and the project's
/// license does not: the project could not keep its own terms.
pub open spec fn conflicts_with(license: Seq<char>, project: Seq<char>) -> bool {
    requires_strong_copyleft(license) && !requires_strong_copyleft(project)
}

/// The license score and its explanation, for a dependency under `license`
/// in a project under `project`:
/// - 0 and "Blocked license: L" when a blocklist entry occurs in L;
/// - 25 and "Conflicts with project license P: L" when L conflicts with P
///   (see `conflicts_with`);
/// - 100 and "Allowed: L" otherwise;
/// - 50 and "Unknown license" when the license is unknown.
pub open spec fn license_verdict(
    license: Option<Seq<char>>,
    blocklist: Seq<Seq<char>>,
    project: Seq<char>,
) -> (u8, Seq<char>) {
    match license {
        Some(l) => if is_blocked(l, blocklist) {
            (0, "Blocked license: "@ + l)
        } else if conflicts_with(l, project) {
            (CONFLICT_SCORE, "Conflicts with project license "@ + project + ": "@ + l)
        } else {
            (100, "Allowed: "@ + l)
        },
        None => (50, "Unknown license"@),
    }
}

/// Whether the single license identifier `id` names a strong copyleft
/// license.
fn id_is_copyleft(id: &str) -> (r: bool)
    ensures
        r == names_strong_copyleft(id@),
{
    contains(id, "GPL") && !contains(id, "LGPL")
}

/// Whether some part of an "A AND B" conjunction names strong copyleft.
fn conjunction_copyleft(alt: &str) -> (r: bool)
    ensures
        r == conjunction_is_copyleft(alt@),
{
    proof {
        reveal_strlit(" AND ");
    }
    let parts = split_text(alt, " AND ");
    let ghost ps = split_by(alt@, " AND "@);
    let mut k: usize = 0;
    while k < parts.len()
        invariant
            parts@.map_values(|t: String| t@) == ps,
            ps == split_by(alt@, " AND "@),
            k <= parts.len(),
            forall|j: int| 0 <= j < k ==> !names_strong_copyleft(#[trigger] ps[j]),
        decreases parts.len() - k,
    {
        if id_is_copyleft(parts[k].as_str()) {
            assert(names_strong_copyleft(ps[k as int]));
            return true;
        }
        k = k + 1;
    }
    false
}

/// Whether every alternative of an "A/B" choice binds to strong copyleft.
fn slash_choice_copyleft(choice: &str) -> (r: bool)
    ensures
        r == slash_choice_is_copyleft(choice@),
{
    proof {
        reveal_strlit("/");
    }
    let alts = split_text(choice, "/");
    let ghost xs = split_by(choice@, "/"@);
    let mut k: usize = 0;
    while k < alts.len()
        invariant
            alts@.map_values(|t: String| t@) == xs,
            xs == split_by(choice@, "/"@),
            k <= alts.len(),
            forall|j: int| 0 <= j < k ==> conjunction_is_copyleft(#[trigger] xs[j]),
        decreases alts.len() - k,
    {
        if !conjunction_copyleft(alts[k].as_str()) {
            assert(!conjunction_is_copyleft(xs[k as int]));
            return false;
        }
        k = k + 1;
    }
    true
}

/// Whether a license expression binds its user to strong copyleft.
pub fn license_requires_copyleft(license: &str) -> (r: bool)
    ensures
        r == requires_strong_copyleft(license@),
{
    proof {
        reveal_strlit(" OR ");
    }
    let choices = split_text(license, " OR ");
    let ghost cs = split_by(license@, " OR "@);
    let mut k: usize = 0;
    while k < choices.len()
        invariant
            choices@.map_values(|t: String| t@) == cs,
            cs == split_by(license@, " OR "@),
            k <= choices.len(),
            forall|j: int| 0 <= j < k ==> slash_choice_is_copyleft(#[trigger] cs[j]),
        decreases choices.len() - k,
    {
        if !slash_choice_copyleft(choices[k].as_str()) {
            assert(!slash_choice_is_copyleft(cs[k as int]));
            return false;
        }
        k = k + 1;
    }
    true
}

/// Whether a dependency under `license` conflicts with a project under
/// `project`.
pub fn license_conflicts(license: &str, project: &str) -> (r: bool)
    ensures
        r == conflicts_with(license@, project@),
{
    license_requires_copyleft(license) && !license_requires_copyleft(project)
}

/// Scores the license of `metadata` against `config.blocklist` and
/// `config.project_license`.
pub fn calculate(metadata: &PackageMetadata, config: &LicenseConfig) -> (r: (u8, String))
    ensures
        (r.0, r.1@) == license_verdict(
            opt_text(metadata.license),
            texts(config.blocklist@),
            config.project_license@,
        ),
{
    match &metadata.license {
        Some(license) => {
            let mut i: usize = 0;
            while i < config.blocklist.len()
                invariant
                    i <= config.blocklist.len(),
                    opt_text(metadata.license) == Some(license@),
                    forall|k: int|
                        0 <= k < i ==> !has_substring(
                            license@,
                            #[trigger] texts(config.blocklist@)[k],
                        ),
                decreases config.blocklist.len() - i,
            {
                if contains(license.as_str(), config.blocklist[i].as_str()) {
                    assert(has_substring(license@, texts(config.blocklist@)[i as int]));
                    assert(is_blocked(license@, texts(config.blocklist@)));
                    return (0, joined("Blocked license: ", license.as_str()));
                }
                i = i + 1;
            }
            if license_conflicts(license.as_str(), config.project_license.as_str()) {
                let mut d = joined("Conflicts with project license ", config.project_license.as_str());
                d.append(": ");
                d.append(license.as_str());
                (CONFLICT_SCORE, d)
            } else {
                (100, joined("Allowed: ", license.as_str()))
            }
        },
        None => (50, String::from_str("Unknown license")),
    }
}

/// A dependency under the project's own license never conflicts with it.
pub proof fn law_own_license_never_conflicts(project: Seq<char>)
    ensures
        !conflicts_with(project, project),
{
}

/// A known license that is neither blocked nor in conflict scores full
/// marks, and every other known license scores below them.
pub proof fn law_only_compatible_licenses_score_full(
    license: Seq<char>,
    blocklist: Seq<Seq<char>>,
    project: Seq<char>,
)
    ensures
        (license_verdict(Some(license), blocklist, project).0 == 100) <==> (!is_blocked(
            license,
            blocklist,
        ) && !conflicts_with(license, project)),
{
}

/// A license expression that offers, among its " OR " alternatives, one
/// that does not bind to strong copyleft (such as "MIT OR GPL-3.0") never
/// conflicts with any project.
pub proof fn law_permissive_choice_never_conflicts(license: Seq<char>, project: Seq<char>, k: int)
    requires
        0 <= k < split_by(license, " OR "@).len(),
        !slash_choice_is_copyleft(split_by(license, " OR "@)[k]),
    ensures
        !conflicts_with(license, project),
{
}

/// A license in which a blocklist entry occurs scores 0 whatever the
/// project's license; an unknown license scores 50; a dependency under the
/// project's own license that is not blocked scores 100.
pub proof fn law_license_outcomes(license: Seq<char>, blocklist: Seq<Seq<char>>, project: Seq<char>, i: int)
    ensures
        0 <= i < blocklist.len() && has_substring(license, blocklist[i]) ==> license_verdict(
            Some(license),
            blocklist,
            project,
        ).0 == 0,
        license_verdict(None, blocklist, project).0 == 50,
        !is_blocked(project, blocklist) ==> license_verdict(Some(project), blocklist, project).0
            == 100,
{
}

} // verus!
