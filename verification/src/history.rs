use vstd::prelude::*;

verus! {

/// Number of resolutions the resource history keeps.
pub const TIER_COUNT: usize = 8;

/// The resolution the resource screen opens with: one sample per second.
pub const DEFAULT_TIER: usize = 1;

/// The span label of each tier, finest first.
pub open spec fn tier_labels() -> Seq<&'static str> {
    seq!["10 S", "2 MIN", "2 HR", "3 DAY", "3 MON", "10 YR", "100 YR", "1000 YR"]
}

/// How many samples each tier keeps, finest first.
pub open spec fn tier_caps() -> Seq<usize> {
    seq![100, 120, 120, 72, 90, 120, 120, 120]
}

/// The tier that a requested index falls to: indices past the coarsest tier
/// mean the coarsest tier.
pub open spec fn clamp_tier(tier: usize) -> int {
    if tier < TIER_COUNT { tier as int } else { TIER_COUNT - 1 }
}

/// The span label of the tier at `tier`, clamped to the coarsest tier.
pub fn tier_label(tier: usize) -> (s: &'static str)
    ensures
        s == tier_labels()[clamp_tier(tier)],
{
    let labels: [&'static str; 8] = ["10 S", "2 MIN", "2 HR", "3 DAY", "3 MON", "10 YR", "100 YR", "1000 YR"];
    let i = if tier < TIER_COUNT { tier } else { TIER_COUNT - 1 };
    assert(labels@ == tier_labels());
    labels[i]
}

/// How many samples the tier at `tier` keeps, clamped to the coarsest tier.
pub fn tier_cap(tier: usize) -> (c: usize)
    ensures
        c == tier_caps()[clamp_tier(tier)],
{
    let caps: [usize; 8] = [100, 120, 120, 72, 90, 120, 120, 120];
    let i = if tier < TIER_COUNT { tier } else { TIER_COUNT - 1 };
    assert(caps@ == tier_caps());
    caps[i]
}

} // verus!
