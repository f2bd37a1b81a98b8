//! Fee tiers: the classification of a staked balance, and what each tier is worth.

use vstd::prelude::*;

verus! {

/// Smallest staked balance, in 6-decimal units, that is classified Silver (1,000 tokens).
pub const SILVER_THRESHOLD: u64 = 1_000_000_000;

/// Smallest staked balance that is classified Gold (10,000 tokens).
pub const GOLD_THRESHOLD: u64 = 10_000_000_000;

/// Smallest staked balance that is classified Platinum (50,000 tokens).
pub const PLATINUM_THRESHOLD: u64 = 50_000_000_000;

/// Smallest staked balance that is classified Diamond (100,000 tokens).
pub const DIAMOND_THRESHOLD: u64 = 100_000_000_000;

/// The five fee tiers, lowest first.
#[derive(Clone, Copy, PartialEq, Eq, Debug, Structural)]
pub enum FeeTier {
    Bronze,
    Silver,
    Gold,
    Platinum,
    Diamond,
}

/// Position of a tier in the order Bronze < Silver < Gold < Platinum < Diamond.
pub open spec fn tier_rank(tier: FeeTier) -> int {
    match tier {
        FeeTier::Bronze => 0,
        FeeTier::Silver => 1,
        FeeTier::Gold => 2,
        FeeTier::Platinum => 3,
        FeeTier::Diamond => 4,
    }
}

/// The tier of a staked balance: the highest tier whose threshold the balance reaches.
pub open spec fn tier_of(staked_amount: int) -> FeeTier {
    if staked_amount < 1_000_000_000 {
        FeeTier::Bronze
    } else if staked_amount < 10_000_000_000 {
        FeeTier::Silver
    } else if staked_amount < 50_000_000_000 {
        FeeTier::Gold
    } else if staked_amount < 100_000_000_000 {
        FeeTier::Platinum
    } else {
        FeeTier::Diamond
    }
}

/// Reward multiplier of a tier, in hundredths (100 pays the base reward once).
pub open spec fn multiplier_of(tier: FeeTier) -> int {
    match tier {
        FeeTier::Bronze => 100,
        FeeTier::Silver => 125,
        FeeTier::Gold => 150,
        FeeTier::Platinum => 200,
        FeeTier::Diamond => 300,
    }
}

/// Fee discount of a tier, in percent.
pub open spec fn discount_of(tier: FeeTier) -> int {
    match tier {
        FeeTier::Bronze => 0,
        FeeTier::Silver => 10,
        FeeTier::Gold => 25,
        FeeTier::Platinum => 50,
        FeeTier::Diamond => 75,
    }
}

/// Classifies a staked balance.
pub fn calculate_fee_tier(staked_amount: u64) -> (tier: FeeTier)
    ensures
        tier == tier_of(staked_amount as int),
{
    if staked_amount < SILVER_THRESHOLD {
        FeeTier::Bronze
    } else if staked_amount < GOLD_THRESHOLD {
        FeeTier::Silver
    } else if staked_amount < PLATINUM_THRESHOLD {
        FeeTier::Gold
    } else if staked_amount < DIAMOND_THRESHOLD {
        FeeTier::Platinum
    } else {
        FeeTier::Diamond
    }
}

/// Reward multiplier of a tier, in hundredths.
pub fn get_reward_multiplier(tier: FeeTier) -> (multiplier: u64)
    ensures
        multiplier == multiplier_of(tier),
{
    match tier {
        FeeTier::Bronze => 100,
        FeeTier::Silver => 125,
        FeeTier::Gold => 150,
        FeeTier::Platinum => 200,
        FeeTier::Diamond => 300,
    }
}

/// Fee discount of a tier, in percent.
pub fn fee_discount_of(tier: FeeTier) -> (discount: u16)
    ensures
        discount == discount_of(tier),
{
    match tier {
        FeeTier::Bronze => 0,
        FeeTier::Silver => 10,
        FeeTier::Gold => 25,
        FeeTier::Platinum => 50,
        FeeTier::Diamond => 75,
    }
}

/// A larger stake never has a lower tier.
pub proof fn lemma_tier_monotonic(smaller: int, larger: int)
    requires
        smaller <= larger,
    ensures
        tier_rank(tier_of(smaller)) <= tier_rank(tier_of(larger)),
{
}

/// The tier changes only at the four thresholds: a balance has rank `k` exactly when it
/// has reached `k` of them.
pub proof fn lemma_tier_steps(staked_amount: int)
    ensures
        tier_rank(tier_of(staked_amount)) == (if staked_amount >= SILVER_THRESHOLD { 1int } else { 0 })
            + (if staked_amount >= GOLD_THRESHOLD { 1int } else { 0 })
            + (if staked_amount >= PLATINUM_THRESHOLD { 1int } else { 0 })
            + (if staked_amount >= DIAMOND_THRESHOLD { 1int } else { 0 }),
{
}

/// A higher tier never has a smaller multiplier or a smaller discount.
pub proof fn lemma_tier_benefits_monotonic(lower: FeeTier, higher: FeeTier)
    requires
        tier_rank(lower) <= tier_rank(higher),
    ensures
        multiplier_of(lower) <= multiplier_of(higher),
        discount_of(lower) <= discount_of(higher),
        100 <= multiplier_of(lower) <= 300,
        0 <= discount_of(lower) <= 75,
{
}

} // verus!
