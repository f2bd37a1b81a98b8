use idxflow_orderflow::tier::{
    DIAMOND_THRESHOLD, GOLD_THRESHOLD, PLATINUM_THRESHOLD, SILVER_THRESHOLD,
};
use idxflow_orderflow::{
    calculate_fee_tier, create_user_account, fee_discount_of, get_fee_discount,
    get_reward_multiplier, stake_tokens, FeeTier, Identity, TransferOutcome,
};

const ALL_TIERS: [FeeTier; 5] = [
    FeeTier::Bronze,
    FeeTier::Silver,
    FeeTier::Gold,
    FeeTier::Platinum,
    FeeTier::Diamond,
];

fn rank(tier: FeeTier) -> usize {
    ALL_TIERS.iter().position(|t| *t == tier).unwrap()
}

#[test]
fn ten_thousand_tokens_is_gold() {
    let tier = calculate_fee_tier(10_000_000_000);
    assert_eq!(tier, FeeTier::Gold);
    assert_eq!(get_reward_multiplier(tier), 150);
    assert_eq!(fee_discount_of(tier), 25);
}

#[test]
fn thresholds_are_the_scaled_token_counts() {
    assert_eq!(SILVER_THRESHOLD, 1_000 * 1_000_000);
    assert_eq!(GOLD_THRESHOLD, 10_000 * 1_000_000);
    assert_eq!(PLATINUM_THRESHOLD, 50_000 * 1_000_000);
    assert_eq!(DIAMOND_THRESHOLD, 100_000 * 1_000_000);
}

#[test]
fn tier_changes_exactly_at_each_threshold() {
    assert_eq!(calculate_fee_tier(0), FeeTier::Bronze);
    assert_eq!(calculate_fee_tier(999_999_999), FeeTier::Bronze);
    assert_eq!(calculate_fee_tier(1_000_000_000), FeeTier::Silver);
    assert_eq!(calculate_fee_tier(9_999_999_999), FeeTier::Silver);
    assert_eq!(calculate_fee_tier(10_000_000_000), FeeTier::Gold);
    assert_eq!(calculate_fee_tier(49_999_999_999), FeeTier::Gold);
    assert_eq!(calculate_fee_tier(50_000_000_000), FeeTier::Platinum);
    assert_eq!(calculate_fee_tier(99_999_999_999), FeeTier::Platinum);
    assert_eq!(calculate_fee_tier(100_000_000_000), FeeTier::Diamond);
    assert_eq!(calculate_fee_tier(u64::MAX), FeeTier::Diamond);
}

#[test]
fn fractions_of_a_token_below_a_threshold_stay_in_the_lower_tier() {
    assert_eq!(calculate_fee_tier(999_000_001), FeeTier::Bronze);
    assert_eq!(calculate_fee_tier(9_999_500_000), FeeTier::Silver);
    assert_eq!(calculate_fee_tier(49_999_000_001), FeeTier::Gold);
    assert_eq!(calculate_fee_tier(99_999_999_000), FeeTier::Platinum);
}

#[test]
fn tier_never_falls_as_the_stake_grows() {
    let samples: [u64; 14] = [
        0,
        1,
        999_999_999,
        1_000_000_000,
        1_000_000_001,
        5_000_000_000,
        9_999_999_999,
        10_000_000_000,
        30_000_000_000,
        50_000_000_000,
        99_999_999_999,
        100_000_000_000,
        1_000_000_000_000,
        u64::MAX,
    ];
    for pair in samples.windows(2) {
        assert!(rank(calculate_fee_tier(pair[0])) <= rank(calculate_fee_tier(pair[1])));
    }
}

#[test]
fn multiplier_table() {
    assert_eq!(get_reward_multiplier(FeeTier::Bronze), 100);
    assert_eq!(get_reward_multiplier(FeeTier::Silver), 125);
    assert_eq!(get_reward_multiplier(FeeTier::Gold), 150);
    assert_eq!(get_reward_multiplier(FeeTier::Platinum), 200);
    assert_eq!(get_reward_multiplier(FeeTier::Diamond), 300);
}

#[test]
fn discount_table() {
    assert_eq!(fee_discount_of(FeeTier::Bronze), 0);
    assert_eq!(fee_discount_of(FeeTier::Silver), 10);
    assert_eq!(fee_discount_of(FeeTier::Gold), 25);
    assert_eq!(fee_discount_of(FeeTier::Platinum), 50);
    assert_eq!(fee_discount_of(FeeTier::Diamond), 75);
}

#[test]
fn fee_discount_reads_the_cached_tier() {
    let mut account = create_user_account(Identity::new([7; 32]), 254);
    assert_eq!(get_fee_discount(&account), 0);
    assert_eq!(
        stake_tokens(&mut account, 50_000_000_000, TransferOutcome::Completed),
        Ok(())
    );
    assert_eq!(get_fee_discount(&account), 50);

    // The query answers from the tier stored on the account and does not reclassify.
    account.staked_amount = 0;
    assert_eq!(get_fee_discount(&account), 50);
}
