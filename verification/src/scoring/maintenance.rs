//! Maintenance activity, judged from the date of the latest release.
use vstd::prelude::*;
use crate::ecosystems::PackageMetadata;
use crate::json::opt_text;
use crate::text::{has_prefix, starts_with};

verus! {

/// The maintenance score of a package whose latest release date is `date`:
/// 90 for a release in 2024, 2025 or 2026, 60 for one in 2023, 20 for an
/// older one, and 50 when the date is unknown.
pub open spec fn maintenance_score(date: Option<Seq<char>>) -> u8 {
    match date {
        Some(d) => if has_prefix(d, "2026"@) || has_prefix(d, "2025"@) || has_prefix(d, "2024"@) {
            90
        } else if has_prefix(d, "2023"@) {
            60
        } else {
            20
        },
        None => 50,
    }
}

/// Scores maintenance from the latest release date.
pub fn calculate(metadata: &PackageMetadata) -> (r: u8)
    ensures
        r == maintenance_score(opt_text(metadata.latest_release_date)),
{
    match &metadata.latest_release_date {
        Some(date) => {
            if starts_with(date.as_str(), "2026") || starts_with(date.as_str(), "2025")
                || starts_with(date.as_str(), "2024") {
                90
            } else if starts_with(date.as_str(), "2023") {
                60
            } else {
                20
            }
        },
        None => 50,
    }
}

/// The maintenance score by release year: a release dated in 2024, 2025 or
/// 2026 scores 90, one dated in 2023 scores 60, any other dated release
/// (older, or with an unreadable year) scores 20, and an unknown date 50.
pub proof fn law_maintenance_by_release_year(d: Seq<char>)
    ensures
        (has_prefix(d, "2024"@) || has_prefix(d, "2025"@) || has_prefix(d, "2026"@))
            ==> maintenance_score(Some(d)) == 90,
        has_prefix(d, "2023"@) ==> maintenance_score(Some(d)) == 60,
        (!has_prefix(d, "2023"@) && !has_prefix(d, "2024"@) && !has_prefix(d, "2025"@)
            && !has_prefix(d, "2026"@)) ==> maintenance_score(Some(d)) == 20,
        maintenance_score(None) == 50,
{
    reveal_strlit("2023");
    reveal_strlit("2024");
    reveal_strlit("2025");
    reveal_strlit("2026");
    if has_prefix(d, "2023"@) {
        assert(d.subrange(0, 4)[3] == d[3]);
        assert("2023"@[3] == '3');
        assert("2024"@[3] == '4');
        assert("2025"@[3] == '5');
        assert("2026"@[3] == '6');
        if has_prefix(d, "2024"@) {
            assert(d.subrange(0, 4)[3] == '4');
        }
        if has_prefix(d, "2025"@) {
            assert(d.subrange(0, 4)[3] == '5');
        }
        if has_prefix(d, "2026"@) {
            assert(d.subrange(0, 4)[3] == '6');
        }
    }
}

} // verus!
