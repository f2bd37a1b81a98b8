//! The reward of one epoch's volume, and the claim that pays it at most once per epoch.

use vstd::prelude::*;
use crate::custody::{TransferAuthority, TransferOutcome, TransferRequest, Vault};
use crate::state::{ErrorCode, GlobalState, UserAccount};
use crate::tier::{get_reward_multiplier, multiplier_of, FeeTier};

verus! {

/// Scale of the reward rate: a rate of 1,000,000 pays one unit per unit of volume.
pub const RATE_SCALE: u64 = 1_000_000;

/// Scale of the tier multiplier: a multiplier of 100 pays the base reward once.
pub const MULTIPLIER_SCALE: u64 = 100;

/// Reward before the tier multiplier: volume times rate, scaled down and rounded down.
pub open spec fn base_reward(volume: int, rate: int) -> int {
    (volume * rate) / 1_000_000
}

/// Reward after the tier multiplier, rounded down once more.
pub open spec fn reward_of(volume: int, rate: int, tier: FeeTier) -> int {
    (base_reward(volume, rate) * multiplier_of(tier)) / 100
}

/// The product of volume and rate stays in the unsigned 64-bit range. The second
/// product, of the base reward and the multiplier, then always does.
pub open spec fn reward_computable(volume: int, rate: int) -> bool {
    volume * rate <= u64::MAX
}

/// The base reward of a product in range is small enough for every multiplier.
pub proof fn lemma_scaled_reward_in_range(volume: int, rate: int, tier: FeeTier)
    requires
        0 <= volume,
        0 <= rate,
        reward_computable(volume, rate),
    ensures
        0 <= base_reward(volume, rate) <= 18_446_744_073_709,
        0 <= base_reward(volume, rate) * multiplier_of(tier) <= u64::MAX,
        0 <= reward_of(volume, rate, tier) <= u64::MAX,
{
    let product = volume * rate;
    assert(0 <= product) by (nonlinear_arith)
        requires
            0 <= volume,
            0 <= rate,
            product == volume * rate,
    ;
    let base = base_reward(volume, rate);
    let multiplier = multiplier_of(tier);
    assert(0 <= base * multiplier <= 18_446_744_073_709 * 300) by (nonlinear_arith)
        requires
            0 <= base <= 18_446_744_073_709,
            100 <= multiplier <= 300,
    ;
}

/// The reward of `volume` at `rate` for `tier`, or `ArithmeticOverflow` where the
/// product of volume and rate leaves the unsigned 64-bit range.
pub fn compute_reward(volume: u64, rate: u64, tier: FeeTier) -> (result: Result<u64, ErrorCode>)
    ensures
        result == (if reward_computable(volume as int, rate as int) {
            Ok::<u64, ErrorCode>(reward_of(volume as int, rate as int, tier) as u64)
        } else {
            Err::<u64, ErrorCode>(ErrorCode::ArithmeticOverflow)
        }),
        result matches Ok(reward) ==> reward == reward_of(volume as int, rate as int, tier),
{
    let product = match volume.checked_mul(rate) {
        Some(product) => product,
        None => return Err(ErrorCode::ArithmeticOverflow),
    };
    let base: u64 = product / RATE_SCALE;
    proof {
        lemma_scaled_reward_in_range(volume as int, rate as int, tier);
    }
    let scaled: u64 = base * get_reward_multiplier(tier);
    Ok(scaled / MULTIPLIER_SCALE)
}

/// The reward that a claim by `user` would pay now: of the epoch volume that the
/// account holds, at the current rate, for the cached tier.
pub open spec fn claimable_reward(state: GlobalState, user: UserAccount) -> int {
    reward_of(user.current_epoch_volume as int, state.reward_rate_per_volume as int, user.fee_tier)
}

/// Why a claim by `user` is refused before any transfer is asked for, if it is: the
/// two guards in order, then the arithmetic of the reward and of the new total.
pub open spec fn claim_refusal(state: GlobalState, user: UserAccount) -> Option<ErrorCode> {
    if user.last_claim_epoch >= state.current_epoch {
        Some(ErrorCode::AlreadyClaimedThisEpoch)
    } else if user.current_epoch_volume < state.min_volume_threshold {
        Some(ErrorCode::InsufficientVolume)
    } else if !reward_computable(user.current_epoch_volume as int, state.reward_rate_per_volume as int)
        || state.total_distributed + claimable_reward(state, user) > u64::MAX {
        Some(ErrorCode::ArithmeticOverflow)
    } else {
        None
    }
}

/// The transfer that pays a reward of `amount`.
pub open spec fn reward_transfer(amount: u64) -> TransferRequest {
    TransferRequest {
        from: Vault::RewardReserve,
        to: Vault::UserWallet,
        amount,
        authority: TransferAuthority::Program,
    }
}

/// What a claim returns: the refusal if there is one, else `CustodyTransferFailed` if
/// the transfer was declined, else the amount paid.
pub open spec fn claim_result(state: GlobalState, user: UserAccount, custody: TransferOutcome) -> Result<u64, ErrorCode> {
    match claim_refusal(state, user) {
        Some(error) => Err(error),
        None => match custody {
            TransferOutcome::Declined => Err(ErrorCode::CustodyTransferFailed),
            TransferOutcome::Completed => Ok(claimable_reward(state, user) as u64),
        },
    }
}

/// The account after a paid claim: marked as having claimed in the current epoch.
pub open spec fn claimed_account(state: GlobalState, user: UserAccount) -> UserAccount {
    UserAccount { last_claim_epoch: state.current_epoch, ..user }
}

/// The program state after a paid claim: the reward added to the total distributed.
pub open spec fn claimed_state(state: GlobalState, user: UserAccount) -> GlobalState {
    GlobalState {
        total_distributed: (state.total_distributed + claimable_reward(state, user)) as u64,
        ..state
    }
}

/// First step of a claim: checks the guards and names the transfer to ask for.
/// Changes nothing.
pub fn claim_request(state: &GlobalState, user: &UserAccount) -> (result: Result<TransferRequest, ErrorCode>)
    ensures
        result == (match claim_refusal(*state, *user) {
            Some(error) => Err::<TransferRequest, ErrorCode>(error),
            None => Ok::<TransferRequest, ErrorCode>(reward_transfer(claimable_reward(*state, *user) as u64)),
        }),
        result matches Ok(request) ==> request.amount == claimable_reward(*state, *user),
{
    if user.last_claim_epoch >= state.current_epoch {
        return Err(ErrorCode::AlreadyClaimedThisEpoch);
    }
    if user.current_epoch_volume < state.min_volume_threshold {
        return Err(ErrorCode::InsufficientVolume);
    }
    let reward = match compute_reward(user.current_epoch_volume, state.reward_rate_per_volume, user.fee_tier) {
        Ok(reward) => reward,
        Err(error) => return Err(error),
    };
    if state.total_distributed.checked_add(reward).is_none() {
        return Err(ErrorCode::ArithmeticOverflow);
    }
    Ok(TransferRequest {
        from: Vault::RewardReserve,
        to: Vault::UserWallet,
        amount: reward,
        authority: TransferAuthority::Program,
    })
}

/// Second step of a claim: `custody` is the outcome of the transfer that
/// `claim_request` named. Returns the amount paid.
///
/// Where the claim is paid, the account is marked as having claimed in the current
/// epoch and the amount is added to the total distributed. Where it is refused or the
/// transfer was declined, both records stay as they were, so the claim can be repeated.
pub fn claim_rewards(state: &mut GlobalState, user: &mut UserAccount, custody: TransferOutcome) -> (result: Result<u64, ErrorCode>)
    ensures
        result == claim_result(*old(state), *old(user), custody),
        result matches Ok(paid) ==> {
            &&& paid == claimable_reward(*old(state), *old(user))
            &&& *final(user) == claimed_account(*old(state), *old(user))
            &&& *final(state) == claimed_state(*old(state), *old(user))
            &&& final(user).last_claim_epoch == old(state).current_epoch
            &&& final(state).total_distributed == old(state).total_distributed + paid
        },
        result is Err ==> *final(state) == *old(state) && *final(user) == *old(user),
{
    let request = match claim_request(state, user) {
        Ok(request) => request,
        Err(error) => return Err(error),
    };
    match custody {
        TransferOutcome::Declined => Err(ErrorCode::CustodyTransferFailed),
        TransferOutcome::Completed => {
            user.last_claim_epoch = state.current_epoch;
            state.total_distributed = state.total_distributed + request.amount;
            Ok(request.amount)
        },
    }
}

} // verus!
