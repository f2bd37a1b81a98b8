//! The two ledger records, and the errors with which an operation can refuse.

use vstd::prelude::*;
use crate::identity::Identity;
use crate::tier::{tier_of, FeeTier};

verus! {

/// Why an operation refused. A refused operation leaves every record as it was.
#[derive(Clone, Copy, PartialEq, Eq, Debug, Structural)]
pub enum ErrorCode {
    /// An unstake asked for more than is staked.
    InsufficientStakedAmount,
    /// The user has already claimed in the current epoch.
    AlreadyClaimedThisEpoch,
    /// The user's epoch volume is below the claim threshold.
    InsufficientVolume,
    /// The requester is not the authority.
    Unauthorized,
    /// A counter or an intermediate product would leave the unsigned 64-bit range.
    ArithmeticOverflow,
    /// The custody service declined the transfer.
    CustodyTransferFailed,
}

/// The program-wide configuration and counters. There is one such record.
#[derive(Clone, Copy, PartialEq, Eq, Debug)]
pub struct GlobalState {
    /// The identity that may change the configuration.
    pub authority: Identity,
    /// Reward units per unit of volume, scaled by 1,000,000.
    pub reward_rate_per_volume: u64,
    /// Length of an epoch in seconds.
    pub epoch_duration: i64,
    /// Least epoch volume with which a user may claim.
    pub min_volume_threshold: u64,
    /// Index of the running epoch; the first is 0.
    pub current_epoch: u64,
    /// Time at which the running epoch began.
    pub last_epoch_reset: i64,
    /// Sum of all rewards paid out.
    pub total_distributed: u64,
    /// Seed under which the host stores this record; carried, never read.
    pub bump: u8,
}

/// The ledger of one participant.
#[derive(Clone, Copy, PartialEq, Eq, Debug)]
pub struct UserAccount {
    /// The participant.
    pub owner: Identity,
    /// All volume ever recorded for the participant.
    pub total_volume: u64,
    /// Volume recorded since the last epoch change that this account observed.
    pub current_epoch_volume: u64,
    /// Staked balance.
    pub staked_amount: u64,
    /// Tier of the staked balance as of the last stake or unstake.
    pub fee_tier: FeeTier,
    /// Epoch of the last paid claim; 0 before the first.
    pub last_claim_epoch: u64,
    /// Seed under which the host stores this record; carried, never read.
    pub bump: u8,
}

impl UserAccount {
    /// The cached tier is the tier of the staked balance. Every operation of this
    /// library keeps it so.
    pub open spec fn tier_is_current(self) -> bool {
        self.fee_tier == tier_of(self.staked_amount as int)
    }
}

/// The program state at creation: the given configuration, epoch 0 beginning at `now`,
/// nothing distributed.
pub fn initialize(
    authority: Identity,
    reward_rate_per_volume: u64,
    epoch_duration: i64,
    min_volume_threshold: u64,
    now: i64,
    bump: u8,
) -> (state: GlobalState)
    ensures
        state == (GlobalState {
            authority,
            reward_rate_per_volume,
            epoch_duration,
            min_volume_threshold,
            current_epoch: 0,
            last_epoch_reset: now,
            total_distributed: 0,
            bump,
        }),
{
    GlobalState {
        authority,
        reward_rate_per_volume,
        epoch_duration,
        min_volume_threshold,
        current_epoch: 0,
        last_epoch_reset: now,
        total_distributed: 0,
        bump,
    }
}

/// The ledger of a new participant: no volume, no stake, tier Bronze, never claimed.
pub fn create_user_account(owner: Identity, bump: u8) -> (account: UserAccount)
    ensures
        account == (UserAccount {
            owner,
            total_volume: 0,
            current_epoch_volume: 0,
            staked_amount: 0,
            fee_tier: FeeTier::Bronze,
            last_claim_epoch: 0,
            bump,
        }),
        account.tier_is_current(),
{
    UserAccount {
        owner,
        total_volume: 0,
        current_epoch_volume: 0,
        staked_amount: 0,
        fee_tier: FeeTier::Bronze,
        last_claim_epoch: 0,
        bump,
    }
}

} // verus!
