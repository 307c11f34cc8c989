//! `compare`: several packages side by side.
use vstd::prelude::*;

verus! {

/// The arguments of `compare`.
pub struct CompareArgs {
    /// The packages to compare.
    pub packages: Vec<String>,
}

} // verus!
