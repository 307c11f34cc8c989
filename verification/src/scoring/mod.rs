//! The health score: per-category scores and their weighted average.
use vstd::prelude::*;

pub mod adoption;
pub mod bus_factor;
pub mod community;
pub mod dependency_tree;
pub mod license;
pub mod maintenance;

verus! {

/// The score of one category with a line that explains it.
pub struct CategoryScore {
    pub score: u8,
    pub details: String,
}

/// The overall score of a package and the scores of its six categories.
pub struct HealthScore {
    pub total: u8,
    pub maintenance: CategoryScore,
    pub bus_factor: CategoryScore,
    pub community: CategoryScore,
    pub license: CategoryScore,
    pub dependencies: CategoryScore,
    pub adoption: CategoryScore,
}

/// Score of a category about which nothing is known.
pub const UNKNOWN_SCORE: u8 = 50;

/// The weighted sum of the six category scores, in hundredths: maintenance
/// 25%, bus factor 20%, community 15%, adoption 15%, license 15% and
/// dependency tree 10%.
pub open spec fn weighted_sum(
    maintenance: int,
    bus_factor: int,
    community: int,
    adoption: int,
    license: int,
    dependencies: int,
) -> int {
    25 * maintenance + 20 * bus_factor + 15 * community + 15 * adoption + 15 * license + 10
        * dependencies
}

/// The weighted average of the six category scores, rounded to the nearest
/// integer, halves upwards.
pub open spec fn total_score(
    maintenance: int,
    bus_factor: int,
    community: int,
    adoption: int,
    license: int,
    dependencies: int,
) -> int {
    (weighted_sum(maintenance, bus_factor, community, adoption, license, dependencies) + 50) / 100
}

/// The health score of a package from its six category scores.
pub fn calculate_total_score(
    maintenance: u8,
    bus_factor: u8,
    community: u8,
    adoption: u8,
    license: u8,
    dependencies: u8,
) -> (r: u8)
    ensures
        r as int == total_score(
            maintenance as int,
            bus_factor as int,
            community as int,
            adoption as int,
            license as int,
            dependencies as int,
        ),
{
    let sum: u32 = 25 * (maintenance as u32) + 20 * (bus_factor as u32) + 15 * (community as u32)
        + 15 * (adoption as u32) + 15 * (license as u32) + 10 * (dependencies as u32);
    let rounded: u32 = (sum + 50) / 100;
    rounded as u8
}

/// The health score stays within 0..=100 when every category score does.
pub proof fn law_total_score_in_range(m: int, b: int, c: int, a: int, l: int, d: int)
    requires
        0 <= m <= 100,
        0 <= b <= 100,
        0 <= c <= 100,
        0 <= a <= 100,
        0 <= l <= 100,
        0 <= d <= 100,
    ensures
        0 <= total_score(m, b, c, a, l, d) <= 100,
{
}

/// The weights sum to 100%: when every category has the same score, that is
/// the health score.
pub proof fn law_total_score_of_equal_scores(s: int)
    requires
        0 <= s,
    ensures
        total_score(s, s, s, s, s, s) == s,
{
    assert(weighted_sum(s, s, s, s, s, s) == 100 * s);
    assert((100 * s + 50) / 100 == s) by (nonlinear_arith)
        requires
            0 <= s,
    ;
}

/// Raising the score of any category never lowers the health score.
pub proof fn law_total_score_monotone(
    m1: int,
    b1: int,
    c1: int,
    a1: int,
    l1: int,
    d1: int,
    m2: int,
    b2: int,
    c2: int,
    a2: int,
    l2: int,
    d2: int,
)
    requires
        m1 <= m2,
        b1 <= b2,
        c1 <= c2,
        a1 <= a2,
        l1 <= l2,
        d1 <= d2,
    ensures
        total_score(m1, b1, c1, a1, l1, d1) <= total_score(m2, b2, c2, a2, l2, d2),
{
    let s1 = weighted_sum(m1, b1, c1, a1, l1, d1) + 50;
    let s2 = weighted_sum(m2, b2, c2, a2, l2, d2) + 50;
    assert(s1 <= s2);
    assert(s1 / 100 <= s2 / 100) by (nonlinear_arith)
        requires
            s1 <= s2,
    ;
}

/// How a health score reads: 80 to 100 is healthy, 50 to 79 calls for caution,
/// and below 50 is risky.
#[derive(PartialEq, Eq, Structural, Clone, Copy, Debug)]
pub enum Verdict {
    Healthy,
    Caution,
    Risky,
}

/// The verdict on a health score.
pub open spec fn verdict_of(total: int) -> Verdict {
    if total >= 80 {
        Verdict::Healthy
    } else if total >= 50 {
        Verdict::Caution
    } else {
        Verdict::Risky
    }
}

impl Verdict {
    /// The verdict on a health score.
    pub fn from_total(total: u8) -> (r: Verdict)
        ensures
            r == verdict_of(total as int),
    {
        if total >= 80 {
            Verdict::Healthy
        } else if total >= 50 {
            Verdict::Caution
        } else {
            Verdict::Risky
        }
    }

    /// The verdict's word: "Healthy", "Caution" or "Risky".
    pub fn label(&self) -> (r: &'static str)
        ensures
            *self == Verdict::Healthy ==> r@ == "Healthy"@,
            *self == Verdict::Caution ==> r@ == "Caution"@,
            *self == Verdict::Risky ==> r@ == "Risky"@,
    {
        match self {
            Verdict::Healthy => "Healthy",
            Verdict::Caution => "Caution",
            Verdict::Risky => "Risky",
        }
    }
}

/// A higher health score never reads worse than a lower one.
pub proof fn law_verdict_monotone(t1: int, t2: int)
    requires
        t1 <= t2,
    ensures
        verdict_of(t1) == Verdict::Healthy ==> verdict_of(t2) == Verdict::Healthy,
        verdict_of(t2) == Verdict::Risky ==> verdict_of(t1) == Verdict::Risky,
{
}

/// The health score is the weighted average of the six category scores with
/// the weights of the scoring table (maintenance 25%, bus factor 20%,
/// community 15%, adoption 15%, license 15%, dependency tree 10%), rounded to
/// the nearest integer with halves upwards.
pub proof fn law_total_score_weights(m: int, b: int, c: int, a: int, l: int, d: int)
    ensures
        total_score(m, b, c, a, l, d) == (25 * m + 20 * b + 15 * c + 15 * a + 15 * l + 10 * d + 50)
            / 100,
        100 * total_score(m, b, c, a, l, d) <= 25 * m + 20 * b + 15 * c + 15 * a + 15 * l + 10 * d
            + 50 < 100 * total_score(m, b, c, a, l, d) + 100,
{
}

/// The verdict bands: 80 and above is healthy, 50 to 79 calls for caution,
/// below 50 is risky.
pub proof fn law_verdict_bands(t: int)
    ensures
        t >= 80 <==> verdict_of(t) == Verdict::Healthy,
        50 <= t < 80 <==> verdict_of(t) == Verdict::Caution,
        t < 50 <==> verdict_of(t) == Verdict::Risky,
{
}

} // verus!
