use idxflow_orderflow::{
    create_user_account, stake_request, stake_tokens, unstake_request, unstake_tokens, ErrorCode,
    FeeTier, Identity, TransferAuthority, TransferOutcome, TransferRequest, UserAccount, Vault,
};

fn fresh_account() -> UserAccount {
    create_user_account(Identity::new([3; 32]), 255)
}

#[test]
fn new_account_is_empty_and_bronze() {
    let owner = Identity::new([3; 32]);
    let account = create_user_account(owner, 255);
    assert_eq!(account.owner, owner);
    assert_eq!(account.total_volume, 0);
    assert_eq!(account.current_epoch_volume, 0);
    assert_eq!(account.staked_amount, 0);
    assert_eq!(account.fee_tier, FeeTier::Bronze);
    assert_eq!(account.last_claim_epoch, 0);
    assert_eq!(account.bump, 255);
}

#[test]
fn stake_request_names_the_transfer_into_the_reserve() {
    let account = fresh_account();
    assert_eq!(
        stake_request(&account, 42),
        Ok(TransferRequest {
            from: Vault::UserWallet,
            to: Vault::StakingReserve,
            amount: 42,
            authority: TransferAuthority::User,
        })
    );
}

#[test]
fn stake_adds_and_reclassifies() {
    let mut account = fresh_account();
    assert_eq!(stake_tokens(&mut account, 999_999_999, TransferOutcome::Completed), Ok(()));
    assert_eq!(account.staked_amount, 999_999_999);
    assert_eq!(account.fee_tier, FeeTier::Bronze);
    assert_eq!(stake_tokens(&mut account, 1, TransferOutcome::Completed), Ok(()));
    assert_eq!(account.staked_amount, 1_000_000_000);
    assert_eq!(account.fee_tier, FeeTier::Silver);
    assert_eq!(stake_tokens(&mut account, 99_000_000_000, TransferOutcome::Completed), Ok(()));
    assert_eq!(account.staked_amount, 100_000_000_000);
    assert_eq!(account.fee_tier, FeeTier::Diamond);
}

#[test]
fn stake_of_zero_changes_nothing_but_succeeds() {
    let mut account = fresh_account();
    let before = account;
    assert_eq!(stake_tokens(&mut account, 0, TransferOutcome::Completed), Ok(()));
    assert_eq!(account, before);
}

#[test]
fn declined_stake_leaves_the_account_as_it_was() {
    let mut account = fresh_account();
    account.staked_amount = 5;
    let before = account;
    assert_eq!(
        stake_tokens(&mut account, 10_000_000_000, TransferOutcome::Declined),
        Err(ErrorCode::CustodyTransferFailed)
    );
    assert_eq!(account, before);
}

#[test]
fn stake_overflow_is_refused_before_any_transfer() {
    let mut account = fresh_account();
    assert_eq!(stake_tokens(&mut account, u64::MAX, TransferOutcome::Completed), Ok(()));
    let before = account;
    assert_eq!(stake_request(&account, 1), Err(ErrorCode::ArithmeticOverflow));
    assert_eq!(
        stake_tokens(&mut account, 1, TransferOutcome::Completed),
        Err(ErrorCode::ArithmeticOverflow)
    );
    assert_eq!(
        stake_tokens(&mut account, 1, TransferOutcome::Declined),
        Err(ErrorCode::ArithmeticOverflow)
    );
    assert_eq!(account, before);
    assert_eq!(account.staked_amount, u64::MAX);
}

#[test]
fn unstake_request_names_the_transfer_out_of_the_reserve() {
    let mut account = fresh_account();
    account.staked_amount = 100;
    assert_eq!(
        unstake_request(&account, 100),
        Ok(TransferRequest {
            from: Vault::StakingReserve,
            to: Vault::UserWallet,
            amount: 100,
            authority: TransferAuthority::Program,
        })
    );
}

#[test]
fn unstake_subtracts_and_reclassifies() {
    let mut account = fresh_account();
    assert_eq!(stake_tokens(&mut account, 50_000_000_000, TransferOutcome::Completed), Ok(()));
    assert_eq!(account.fee_tier, FeeTier::Platinum);
    assert_eq!(unstake_tokens(&mut account, 1, TransferOutcome::Completed), Ok(()));
    assert_eq!(account.staked_amount, 49_999_999_999);
    assert_eq!(account.fee_tier, FeeTier::Gold);
    assert_eq!(
        unstake_tokens(&mut account, 49_999_999_999, TransferOutcome::Completed),
        Ok(())
    );
    assert_eq!(account.staked_amount, 0);
    assert_eq!(account.fee_tier, FeeTier::Bronze);
}

#[test]
fn unstaking_more_than_staked_is_refused_and_changes_nothing() {
    let mut account = fresh_account();
    assert_eq!(stake_tokens(&mut account, 10_000_000_000, TransferOutcome::Completed), Ok(()));
    let before = account;
    assert_eq!(
        unstake_request(&account, 10_000_000_001),
        Err(ErrorCode::InsufficientStakedAmount)
    );
    assert_eq!(
        unstake_tokens(&mut account, 10_000_000_001, TransferOutcome::Completed),
        Err(ErrorCode::InsufficientStakedAmount)
    );
    assert_eq!(
        unstake_tokens(&mut account, 10_000_000_001, TransferOutcome::Declined),
        Err(ErrorCode::InsufficientStakedAmount)
    );
    assert_eq!(account, before);
    assert_eq!(account.staked_amount, 10_000_000_000);
    assert_eq!(account.fee_tier, FeeTier::Gold);
}

#[test]
fn declined_unstake_leaves_balance_and_tier() {
    let mut account = fresh_account();
    assert_eq!(stake_tokens(&mut account, 10_000_000_000, TransferOutcome::Completed), Ok(()));
    let before = account;
    assert_eq!(
        unstake_tokens(&mut account, 10_000_000_000, TransferOutcome::Declined),
        Err(ErrorCode::CustodyTransferFailed)
    );
    assert_eq!(account, before);
    // The same unstake can be tried again.
    assert_eq!(
        unstake_tokens(&mut account, 10_000_000_000, TransferOutcome::Completed),
        Ok(())
    );
    assert_eq!(account.staked_amount, 0);
    assert_eq!(account.fee_tier, FeeTier::Bronze);
}

#[test]
fn staking_leaves_the_volume_and_claim_fields() {
    let mut account = fresh_account();
    account.total_volume = 11;
    account.current_epoch_volume = 7;
    account.last_claim_epoch = 3;
    assert_eq!(stake_tokens(&mut account, 1_000_000_000, TransferOutcome::Completed), Ok(()));
    assert_eq!(unstake_tokens(&mut account, 1, TransferOutcome::Completed), Ok(()));
    assert_eq!(account.total_volume, 11);
    assert_eq!(account.current_epoch_volume, 7);
    assert_eq!(account.last_claim_epoch, 3);
    assert_eq!(account.owner, Identity::new([3; 32]));
    assert_eq!(account.bump, 255);
}
