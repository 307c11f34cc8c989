//! Risk of the dependency tree.
use vstd::prelude::*;

verus! {

/// The dependency-tree score: any known vulnerability gives 0; otherwise more
/// than 50 dependencies give 50, more than 10 give 80, and at most 10 give 100.
pub open spec fn dependency_tree_score(known_vulns: nat, dependencies_count: nat) -> u8 {
    if known_vulns > 0 {
        0
    } else if dependencies_count > 50 {
        50
    } else if dependencies_count > 10 {
        80
    } else {
        100
    }
}

/// Scores the dependency tree from its known vulnerabilities and its size.
pub fn calculate(known_vulns: usize, dependencies_count: usize) -> (r: u8)
    ensures
        r == dependency_tree_score(known_vulns as nat, dependencies_count as nat),
{
    if known_vulns > 0 {
        return 0;
    }
    if dependencies_count > 50 {
        return 50;
    } else if dependencies_count > 10 {
        return 80;
    }
    100
}

/// A package with a known vulnerability scores no higher than one without,
/// and a larger tree never scores higher than a smaller one.
pub proof fn law_dependency_tree_monotone(v1: nat, n1: nat, v2: nat, n2: nat)
    requires
        v1 == 0 || v2 > 0,
        n1 <= n2,
    ensures
        dependency_tree_score(v2, n2) <= dependency_tree_score(v1, n1),
{
}

/// The dependency-tree score: any known vulnerability scores 0; otherwise
/// at most 10 dependencies score 100, 11 to 50 score 80, and more score 50.
pub proof fn law_dependency_tree_bands(vulns: nat, n: nat)
    ensures
        vulns > 0 ==> dependency_tree_score(vulns, n) == 0,
        vulns == 0 && n <= 10 ==> dependency_tree_score(vulns, n) == 100,
        vulns == 0 && 10 < n <= 50 ==> dependency_tree_score(vulns, n) == 80,
        vulns == 0 && n > 50 ==> dependency_tree_score(vulns, n) == 50,
{
}

} // verus!
