//! Bus factor: how many people keep the package alive.
use vstd::prelude::*;
use crate::ecosystems::PackageMetadata;
use super::UNKNOWN_SCORE;

verus! {

/// Scores the bus factor. The registry documents read here carry no
/// maintainer or commit counts, so every package gets the score of an
/// unknown category.
pub fn calculate(_metadata: &PackageMetadata) -> (r: u8)
    ensures
        r == UNKNOWN_SCORE,
{
    UNKNOWN_SCORE
}

} // verus!
