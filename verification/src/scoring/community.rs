//! Community health: issues, pull requests and response times.
use vstd::prelude::*;
use crate::ecosystems::PackageMetadata;
use super::UNKNOWN_SCORE;

verus! {

/// Scores community health. The registry documents read here carry no
/// issue or pull-request figures, so every package gets the score of an
/// unknown category.
pub fn calculate(_metadata: &PackageMetadata) -> (r: u8)
    ensures
        r == UNKNOWN_SCORE,
{
    UNKNOWN_SCORE
}

} // verus!
