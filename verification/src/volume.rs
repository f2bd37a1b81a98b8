//! The volume ledger, and the epoch boundary that each recording checks first.
//!
//! There is no timer. The epoch advances when a recording finds that the running epoch
//! has lasted its duration, by one however long the venue was idle, and only the
//! account of that recording starts its epoch volume afresh. Every other account keeps
//! the epoch volume it holds.

use vstd::prelude::*;
use crate::state::{ErrorCode, GlobalState, UserAccount};

verus! {

/// The running epoch has lasted its duration at time `now`.
pub open spec fn epoch_due(state: GlobalState, now: i64) -> bool {
    now >= state.last_epoch_reset + state.epoch_duration
}

/// The program state after the boundary check at time `now`: where the epoch is due,
/// the next epoch, beginning at `now`; otherwise the state as it is.
pub open spec fn after_boundary_check(state: GlobalState, now: i64) -> GlobalState {
    if epoch_due(state, now) {
        GlobalState {
            current_epoch: (state.current_epoch + 1) as u64,
            last_epoch_reset: now,
            ..state
        }
    } else {
        state
    }
}

/// The epoch volume to which a recording at time `now` adds: nothing where this
/// recording begins a new epoch, else what the account holds.
pub open spec fn carried_epoch_volume(state: GlobalState, user: UserAccount, now: i64) -> int {
    if epoch_due(state, now) {
        0
    } else {
        user.current_epoch_volume as int
    }
}

/// A recording of `volume` at time `now` would take a counter out of the unsigned
/// 64-bit range: the epoch index, the lifetime volume or the epoch volume.
pub open spec fn record_overflows(state: GlobalState, user: UserAccount, now: i64, volume: u64) -> bool {
    ||| epoch_due(state, now) && state.current_epoch + 1 > u64::MAX
    ||| user.total_volume + volume > u64::MAX
    ||| carried_epoch_volume(state, user, now) + volume > u64::MAX
}

/// The account after a recording of `volume` at time `now`.
pub open spec fn after_recording(state: GlobalState, user: UserAccount, now: i64, volume: u64) -> UserAccount {
    UserAccount {
        total_volume: (user.total_volume + volume) as u64,
        current_epoch_volume: (carried_epoch_volume(state, user, now) + volume) as u64,
        ..user
    }
}

/// Both records after an attempted recording: as they were where it fails, else the
/// state after the boundary check and the account with the volume added.
pub open spec fn recorded(state: GlobalState, user: UserAccount, now: i64, volume: u64) -> (GlobalState, UserAccount) {
    if record_overflows(state, user, now, volume) {
        (state, user)
    } else {
        (after_boundary_check(state, now), after_recording(state, user, now, volume))
    }
}

/// Whether the running epoch has lasted its duration at time `now`.
pub fn epoch_boundary_crossed(state: &GlobalState, now: i64) -> (due: bool)
    ensures
        due == epoch_due(*state, now),
{
    let boundary: i128 = state.last_epoch_reset as i128 + state.epoch_duration as i128;
    now as i128 >= boundary
}

/// Records `volume` traded by `user` at time `now`.
///
/// The boundary check comes first: where the epoch is due, the epoch index goes up by
/// one, the epoch begins at `now`, and this account's epoch volume starts from 0. Then
/// `volume` is added to the account's lifetime volume and to its epoch volume. Where a
/// counter would overflow, the recording fails with `ArithmeticOverflow` and neither
/// record changes, the epoch included.
pub fn record_swap_volume(state: &mut GlobalState, user: &mut UserAccount, now: i64, volume: u64) -> (result: Result<(), ErrorCode>)
    ensures
        result == (if record_overflows(*old(state), *old(user), now, volume) {
            Err::<(), ErrorCode>(ErrorCode::ArithmeticOverflow)
        } else {
            Ok::<(), ErrorCode>(())
        }),
        (*final(state), *final(user)) == recorded(*old(state), *old(user), now, volume),
        result is Ok ==> {
            &&& *final(state) == after_boundary_check(*old(state), now)
            &&& *final(user) == after_recording(*old(state), *old(user), now, volume)
            &&& final(user).total_volume == old(user).total_volume + volume
            &&& final(user).current_epoch_volume == carried_epoch_volume(*old(state), *old(user), now) + volume
        },
        result is Err ==> *final(state) == *old(state) && *final(user) == *old(user),
{
    let due = epoch_boundary_crossed(state, now);
    let next_epoch: u64 = if due {
        match state.current_epoch.checked_add(1) {
            Some(next) => next,
            None => return Err(ErrorCode::ArithmeticOverflow),
        }
    } else {
        state.current_epoch
    };
    let carried: u64 = if due { 0 } else { user.current_epoch_volume };
    let total_volume = match user.total_volume.checked_add(volume) {
        Some(sum) => sum,
        None => return Err(ErrorCode::ArithmeticOverflow),
    };
    let epoch_volume = match carried.checked_add(volume) {
        Some(sum) => sum,
        None => return Err(ErrorCode::ArithmeticOverflow),
    };
    if due {
        state.current_epoch = next_epoch;
        state.last_epoch_reset = now;
    }
    user.total_volume = total_volume;
    user.current_epoch_volume = epoch_volume;
    Ok(())
}

} // verus!
