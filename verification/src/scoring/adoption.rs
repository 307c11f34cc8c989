//! Adoption, judged from weekly downloads.
use vstd::prelude::*;
use crate::ecosystems::PackageMetadata;

verus! {

/// The adoption score of a package with `weekly_downloads`: 100 from a
/// million downloads a week, 90 from 100,000, 80 from 10,000, 60 from 1,000,
/// 40 from 100, 20 below that, and 50 when the registry gives no count.
pub open spec fn adoption_score(weekly_downloads: Option<u64>) -> u8 {
    match weekly_downloads {
        Some(n) => if n >= 1_000_000 {
            100
        } else if n >= 100_000 {
            90
        } else if n >= 10_000 {
            80
        } else if n >= 1_000 {
            60
        } else if n >= 100 {
            40
        } else {
            20
        },
        None => 50,
    }
}

/// Scores adoption from the weekly download count.
pub fn calculate(metadata: &PackageMetadata) -> (r: u8)
    ensures
        r == adoption_score(metadata.weekly_downloads),
{
    match metadata.weekly_downloads {
        Some(n) => if n >= 1_000_000 {
            100
        } else if n >= 100_000 {
            90
        } else if n >= 10_000 {
            80
        } else if n >= 1_000 {
            60
        } else if n >= 100 {
            40
        } else {
            20
        },
        None => 50,
    }
}

/// More weekly downloads never lower the adoption score.
pub proof fn law_adoption_monotone(n1: u64, n2: u64)
    requires
        n1 <= n2,
    ensures
        adoption_score(Some(n1)) <= adoption_score(Some(n2)),
{
}

/// The adoption bands: 1,000,000 weekly downloads or more score 100,
/// 100,000 or more 90, 10,000 or more 80, 1,000 or more 60, 100 or more 40,
/// fewer 20, and an unknown count 50.
pub proof fn law_adoption_bands(n: u64)
    ensures
        n >= 1_000_000 ==> adoption_score(Some(n)) == 100,
        100_000 <= n < 1_000_000 ==> adoption_score(Some(n)) == 90,
        10_000 <= n < 100_000 ==> adoption_score(Some(n)) == 80,
        1_000 <= n < 10_000 ==> adoption_score(Some(n)) == 60,
        100 <= n < 1_000 ==> adoption_score(Some(n)) == 40,
        n < 100 ==> adoption_score(Some(n)) == 20,
        adoption_score(None) == 50,
{
}

} // verus!
