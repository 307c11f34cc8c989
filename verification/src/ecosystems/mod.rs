//! Package registries: what the tool learns of a package, and how it reads
//! the registries' answers.
use vstd::prelude::*;
use crate::text::{ascii_lower, to_ascii_lower};

pub mod crates;
pub mod npm;
pub mod osv;
pub mod pypi;

verus! {

/// What a registry tells of a package.
pub struct PackageMetadata {
    pub name: String,
    pub version: String,
    pub description: Option<String>,
    pub license: Option<String>,
    pub repository_url: Option<String>,
    pub latest_release_date: Option<String>,
    pub dependencies: Vec<String>,
    pub weekly_downloads: Option<u64>,
}

/// A package registry.
#[derive(PartialEq, Eq, Structural, Clone, Copy, Debug)]
pub enum Ecosystem {
    Npm,
    Pypi,
    Crates,
}

/// The ecosystem that a lower-case name stands for: "npm"; "pypi"; "crates",
/// "crates.io" or "cargo".
pub open spec fn ecosystem_named(name: Seq<char>) -> Option<Ecosystem> {
    if name == "npm"@ {
        Some(Ecosystem::Npm)
    } else if name == "pypi"@ {
        Some(Ecosystem::Pypi)
    } else if name == "crates"@ || name == "crates.io"@ || name == "cargo"@ {
        Some(Ecosystem::Crates)
    } else {
        None
    }
}

/// The canonical name of an ecosystem.
pub open spec fn ecosystem_name(e: Ecosystem) -> Seq<char> {
    match e {
        Ecosystem::Npm => "npm"@,
        Ecosystem::Pypi => "pypi"@,
        Ecosystem::Crates => "crates"@,
    }
}

/// Whether `v` spells the literal `w` (given as its characters).
fn spells(v: &Vec<char>, w: &str) -> (r: bool)
    ensures
        r == (v@ == w@),
{
    let vw = crate::text::chars_of(w);
    if v.len() != vw.len() {
        return false;
    }
    let mut i: usize = 0;
    while i < v.len()
        invariant
            v.len() == vw.len(),
            vw@ == w@,
            i <= v.len(),
            forall|k: int| 0 <= k < i ==> v@[k] == vw@[k],
        decreases v.len() - i,
    {
        if v[i] != vw[i] {
            return false;
        }
        i = i + 1;
    }
    assert(v@ =~= vw@);
    true
}

impl Ecosystem {
    /// The ecosystem that `s` names, in any mix of upper and lower case.
    ///
    /// Letters are compared after lower-casing; the names are ASCII, and no
    /// other character lower-cases to an ASCII letter of them, so ASCII
    /// lower-casing decides the same as full Unicode lower-casing here.
    pub fn from_str(s: &str) -> (r: Option<Ecosystem>)
        ensures
            r == ecosystem_named(ascii_lower(s@)),
    {
        let lower = to_ascii_lower(s);
        if spells(&lower, "npm") {
            Some(Ecosystem::Npm)
        } else if spells(&lower, "pypi") {
            Some(Ecosystem::Pypi)
        } else if spells(&lower, "crates") || spells(&lower, "crates.io") || spells(&lower, "cargo") {
            Some(Ecosystem::Crates)
        } else {
            None
        }
    }

    /// The canonical name of the ecosystem: "npm", "pypi" or "crates".
    pub fn as_str(&self) -> (r: &'static str)
        ensures
            r@ == ecosystem_name(*self),
    {
        match self {
            Ecosystem::Npm => "npm",
            Ecosystem::Pypi => "pypi",
            Ecosystem::Crates => "crates",
        }
    }
}

/// Reading an ecosystem's canonical name gives back that ecosystem.
pub proof fn law_ecosystem_name_round_trip(e: Ecosystem)
    ensures
        ecosystem_named(ascii_lower(ecosystem_name(e))) == Some(e),
{
    reveal_strlit("npm");
    reveal_strlit("pypi");
    reveal_strlit("crates");
    reveal_strlit("crates.io");
    reveal_strlit("cargo");
    let n = ecosystem_name(e);
    assert(ascii_lower(n) =~= n);
}

/// ASCII lower-casing changes nothing the second time.
proof fn lemma_ascii_lower_idempotent(s: Seq<char>)
    ensures
        ascii_lower(ascii_lower(s)) == ascii_lower(s),
{
    assert forall|i: int| 0 <= i < s.len() implies #[trigger] ascii_lower(ascii_lower(s))[i]
        == ascii_lower(s)[i] by {
        let c = s[i];
        if 'A' <= c && c <= 'Z' {
            assert((c as u32) + 32 >= 'a' as u32);
        }
    }
    assert(ascii_lower(ascii_lower(s)) =~= ascii_lower(s));
}

/// Reading an ecosystem name ignores case: a name reads as its lower-cased
/// form does, and two names that differ only in the case of their letters
/// read alike.
pub proof fn law_ecosystem_name_ignores_case(s: Seq<char>, t: Seq<char>)
    ensures
        ecosystem_named(ascii_lower(ascii_lower(s))) == ecosystem_named(ascii_lower(s)),
        ascii_lower(s) == ascii_lower(t) ==> ecosystem_named(ascii_lower(s)) == ecosystem_named(
            ascii_lower(t),
        ),
{
    lemma_ascii_lower_idempotent(s);
}

} // verus!
