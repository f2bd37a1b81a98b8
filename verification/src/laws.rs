//! What holds across operations: counters that never fall, one claim per epoch, and
//! the epoch reset that reaches one account at a time.

use vstd::prelude::*;
use crate::custody::TransferOutcome;
use crate::rewards::{
    base_reward, claim_refusal, claim_result, claimable_reward, claimed_account, claimed_state, reward_of,
};
use crate::staking::with_stake;
use crate::state::{ErrorCode, GlobalState, UserAccount};
use crate::tier::{multiplier_of, FeeTier};
use crate::volume::{carried_epoch_volume, epoch_due, record_overflows, recorded};

verus! {

/// Both records after a series of attempted recordings, each given as its time and
/// its volume, first to last.
pub open spec fn after_recordings(state: GlobalState, user: UserAccount, recordings: Seq<(i64, u64)>) -> (GlobalState, UserAccount)
    decreases recordings.len(),
{
    if recordings.len() == 0 {
        (state, user)
    } else {
        let before = after_recordings(state, user, recordings.drop_last());
        recorded(before.0, before.1, recordings.last().0, recordings.last().1)
    }
}

/// A recording that succeeds adds exactly `volume` to the lifetime volume and, unless
/// it begins a new epoch, to the epoch volume; one that begins a new epoch leaves
/// exactly `volume` as the epoch volume. One that fails changes neither.
pub proof fn lemma_recording_adds_exactly(state: GlobalState, user: UserAccount, now: i64, volume: u64)
    ensures
        !record_overflows(state, user, now, volume) ==> {
            &&& recorded(state, user, now, volume).1.total_volume == user.total_volume + volume
            &&& !epoch_due(state, now) ==> recorded(state, user, now, volume).1.current_epoch_volume
                == user.current_epoch_volume + volume
            &&& epoch_due(state, now) ==> recorded(state, user, now, volume).1.current_epoch_volume == volume
        },
        record_overflows(state, user, now, volume) ==> recorded(state, user, now, volume) == (state, user),
{
}

/// A recording never lowers the epoch index or the lifetime volume, and moves the
/// epoch index by at most one however much time has passed. With a clock that has not
/// gone back behind the start of the running epoch, the start never moves back either
/// and never lies after `now`.
pub proof fn lemma_recording_is_monotonic(state: GlobalState, user: UserAccount, now: i64, volume: u64)
    ensures
        ({
            let after = recorded(state, user, now, volume);
            &&& state.current_epoch <= after.0.current_epoch <= state.current_epoch + 1
            &&& user.total_volume <= after.1.total_volume
            &&& after.0.total_distributed == state.total_distributed
            &&& after.1.last_claim_epoch == user.last_claim_epoch
            &&& after.1.staked_amount == user.staked_amount
            &&& after.1.fee_tier == user.fee_tier
            &&& state.last_epoch_reset <= now ==> state.last_epoch_reset <= after.0.last_epoch_reset <= now
        }),
{
}

/// A paid claim adds the reward to the total distributed, which therefore never
/// falls, leaves the epoch index alone, and moves the epoch of the last claim forward.
pub proof fn lemma_claim_is_monotonic(state: GlobalState, user: UserAccount)
    requires
        claim_refusal(state, user) is None,
    ensures
        claimed_state(state, user).total_distributed == state.total_distributed + claimable_reward(state, user),
        claimed_state(state, user).total_distributed >= state.total_distributed,
        claimed_state(state, user).current_epoch == state.current_epoch,
        claimed_account(state, user).last_claim_epoch > user.last_claim_epoch,
{
    lemma_reward_is_rounded_down(
        user.current_epoch_volume as int,
        state.reward_rate_per_volume as int,
        user.fee_tier,
    );
}

/// The reward is rounded down twice and never up. The base reward is the largest
/// whole number of millionths in the product of volume and rate, and the reward is the
/// largest whole number of hundredths in the base reward times the multiplier; so the
/// reward never exceeds the exact product of volume, rate and multiplier.
pub proof fn lemma_reward_is_rounded_down(volume: int, rate: int, tier: FeeTier)
    requires
        0 <= volume,
        0 <= rate,
    ensures
        base_reward(volume, rate) * 1_000_000 <= volume * rate < (base_reward(volume, rate) + 1) * 1_000_000,
        reward_of(volume, rate, tier) * 100 <= base_reward(volume, rate) * multiplier_of(tier) < (reward_of(
            volume,
            rate,
            tier,
        ) + 1) * 100,
        0 <= reward_of(volume, rate, tier),
        reward_of(volume, rate, tier) * 100_000_000 <= volume * rate * multiplier_of(tier),
{
    let product = volume * rate;
    let base = product / 1_000_000;
    let multiplier = multiplier_of(tier);
    assert(0 <= product) by (nonlinear_arith)
        requires
            0 <= volume,
            0 <= rate,
            product == volume * rate,
    ;
    assert(0 <= base && base * 1_000_000 <= product);
    assert(0 <= base * multiplier && base * multiplier * 1_000_000 <= product * multiplier) by (nonlinear_arith)
        requires
            0 <= base,
            base * 1_000_000 <= product,
            100 <= multiplier,
    ;
    let scaled = base * multiplier;
    let reward = scaled / 100;
    assert(0 <= reward && reward * 100 <= scaled);
    assert(reward * 100_000_000 <= scaled * 1_000_000);
}

/// Staking, recording and claiming keep the cached tier in step with the staked
/// balance: a stake or unstake recomputes it, and nothing else touches either.
pub proof fn lemma_tier_stays_current(state: GlobalState, user: UserAccount, now: i64, volume: u64, staked_amount: u64)
    requires
        user.tier_is_current(),
    ensures
        recorded(state, user, now, volume).1.tier_is_current(),
        claimed_account(state, user).tier_is_current(),
        with_stake(user, staked_amount).tier_is_current(),
{
}

/// A series of recordings never touches the epoch of the last claim, and never lowers
/// the epoch index.
pub proof fn lemma_recordings_keep_claim_mark(state: GlobalState, user: UserAccount, recordings: Seq<(i64, u64)>)
    ensures
        after_recordings(state, user, recordings).1.last_claim_epoch == user.last_claim_epoch,
        after_recordings(state, user, recordings).0.current_epoch >= state.current_epoch,
    decreases recordings.len(),
{
    if recordings.len() > 0 {
        lemma_recordings_keep_claim_mark(state, user, recordings.drop_last());
        let before = after_recordings(state, user, recordings.drop_last());
        lemma_recording_is_monotonic(before.0, before.1, recordings.last().0, recordings.last().1);
    }
}

/// No user claims twice in one epoch. After a paid claim, and after any series of
/// recordings for that user, the next claim is refused with `AlreadyClaimedThisEpoch`
/// as long as the epoch index is the one in which the claim was paid, whatever volume
/// was recorded and whatever the custody service would answer. Once the epoch index
/// has moved on, that guard no longer refuses.
pub proof fn lemma_one_claim_per_epoch(
    state: GlobalState,
    user: UserAccount,
    recordings: Seq<(i64, u64)>,
    custody: TransferOutcome,
)
    requires
        claim_result(state, user, TransferOutcome::Completed) is Ok,
    ensures
        ({
            let later = after_recordings(claimed_state(state, user), claimed_account(state, user), recordings);
            &&& later.0.current_epoch == state.current_epoch ==> claim_result(later.0, later.1, custody) == Err::<
                u64,
                ErrorCode,
            >(ErrorCode::AlreadyClaimedThisEpoch)
            &&& later.0.current_epoch != state.current_epoch ==> claim_refusal(later.0, later.1) != Some(
                ErrorCode::AlreadyClaimedThisEpoch,
            )
        }),
{
    lemma_recordings_keep_claim_mark(claimed_state(state, user), claimed_account(state, user), recordings);
}

/// A claim that was refused or whose transfer was declined can be repeated: it left
/// the records as they were, so the same claim gives the same answer for the same
/// outcome, and is paid once the transfer completes.
pub proof fn lemma_declined_claim_can_be_retried(state: GlobalState, user: UserAccount)
    requires
        claim_result(state, user, TransferOutcome::Declined) == Err::<u64, ErrorCode>(
            ErrorCode::CustodyTransferFailed,
        ),
    ensures
        claim_result(state, user, TransferOutcome::Completed) == Ok::<u64, ErrorCode>(
            claimable_reward(state, user) as u64,
        ),
{
}

/// The epoch reset reaches one account at a time. When a recording for `user` begins
/// a new epoch, that account's epoch volume starts afresh with the recorded volume.
/// Another account, `other`, is no part of that step: a claim for it in the new epoch
/// is computed from the epoch volume it still holds, and its own next recording, at
/// `later` with `more` volume, adds to that volume unless the epoch is due again.
pub proof fn lemma_epoch_reset_is_per_account(
    state: GlobalState,
    user: UserAccount,
    other: UserAccount,
    now: i64,
    volume: u64,
    later: i64,
    more: u64,
)
    requires
        epoch_due(state, now),
        !record_overflows(state, user, now, volume),
    ensures
        ({
            let after = recorded(state, user, now, volume);
            &&& after.0.current_epoch == state.current_epoch + 1
            &&& after.0.last_epoch_reset == now
            &&& after.1.current_epoch_volume == volume
            &&& claimable_reward(after.0, other) == reward_of(
                other.current_epoch_volume as int,
                state.reward_rate_per_volume as int,
                other.fee_tier,
            )
            &&& carried_epoch_volume(after.0, other, later) == (if later >= now + state.epoch_duration {
                0
            } else {
                other.current_epoch_volume as int
            })
            &&& !record_overflows(after.0, other, later, more) && later < now + state.epoch_duration
                ==> recorded(after.0, other, later, more).1.current_epoch_volume == other.current_epoch_volume
                + more
        }),
{
}

} // verus!
