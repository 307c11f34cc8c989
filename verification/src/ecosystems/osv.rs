//! The OSV vulnerability database.
use vstd::prelude::*;
use crate::json::{Json, items_in, items_of, member, member_of};
use crate::text::{owned, same_text};

verus! {

/// The address that vulnerability queries go to.
pub open spec fn query_url_text() -> Seq<char> {
    "https://api.osv.dev/v1/query"@
}

/// The name that OSV gives to an ecosystem of this tool: "npm", "PyPI" or
/// "crates.io"; none for any other name.
pub open spec fn osv_ecosystem(ecosystem: Seq<char>) -> Option<Seq<char>> {
    if ecosystem == "npm"@ {
        Some("npm"@)
    } else if ecosystem == "pypi"@ {
        Some("PyPI"@)
    } else if ecosystem == "crates"@ {
        Some("crates.io"@)
    } else {
        None
    }
}

/// The number of vulnerabilities that an OSV answer lists.
pub open spec fn vulnerability_count_of(data: Json) -> nat {
    match items_of(member_of(data, "vulns"@)) {
        Some(v) => v.len(),
        None => 0,
    }
}

/// A question to OSV: the vulnerabilities of one version of one package.
pub struct OsvQuery {
    pub version: String,
    pub name: String,
    pub ecosystem: String,
}

/// The address that vulnerability queries go to.
pub fn query_url() -> (r: String)
    ensures
        r@ == query_url_text(),
{
    owned("https://api.osv.dev/v1/query")
}

/// The question to ask OSV about `package` at `version` in `ecosystem`, or
/// none where OSV does not know the ecosystem (and no vulnerability is then
/// counted).
pub fn query_for(package: &str, ecosystem: &str, version: &str) -> (r: Option<OsvQuery>)
    ensures
        match r {
            Some(q) => {
                &&& osv_ecosystem(ecosystem@) == Some(q.ecosystem@)
                &&& q.name@ == package@
                &&& q.version@ == version@
            },
            None => osv_ecosystem(ecosystem@) is None,
        },
{
    let osv_name = if same_text(ecosystem, "npm") {
        "npm"
    } else if same_text(ecosystem, "pypi") {
        "PyPI"
    } else if same_text(ecosystem, "crates") {
        "crates.io"
    } else {
        return None;
    };
    Some(OsvQuery { version: owned(version), name: owned(package), ecosystem: owned(osv_name) })
}

/// The number of vulnerabilities that an OSV answer lists.
pub fn vulnerability_count(data: &Json) -> (r: usize)
    ensures
        r == vulnerability_count_of(*data),
{
    match items_in(member(Some(data), "vulns")) {
        Some(v) => v.len(),
        None => 0,
    }
}

} // verus!
