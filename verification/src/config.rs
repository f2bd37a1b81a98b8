//! The configuration that the authority may change, and the read-only fee query.

use vstd::prelude::*;
use crate::identity::Identity;
use crate::state::{ErrorCode, GlobalState, UserAccount};
use crate::tier::{discount_of, fee_discount_of};

verus! {

/// Sets the reward rate, for the authority only. The new rate holds for every claim
/// computed from now on. Any other requester gets `Unauthorized` and the state stays
/// as it was.
pub fn update_reward_rate(state: &mut GlobalState, requester: &Identity, new_rate: u64) -> (result: Result<(), ErrorCode>)
    ensures
        result == (if *requester == old(state).authority {
            Ok::<(), ErrorCode>(())
        } else {
            Err::<(), ErrorCode>(ErrorCode::Unauthorized)
        }),
        result is Ok ==> *final(state) == (GlobalState { reward_rate_per_volume: new_rate, ..*old(state) }),
        result is Err ==> *final(state) == *old(state),
{
    if !requester.same_as(&state.authority) {
        return Err(ErrorCode::Unauthorized);
    }
    state.reward_rate_per_volume = new_rate;
    Ok(())
}

/// The fee discount of the account, in percent: that of the tier cached on it, which
/// is the tier as of the last stake or unstake.
pub fn get_fee_discount(user: &UserAccount) -> (discount: u16)
    ensures
        discount == discount_of(user.fee_tier),
{
    fee_discount_of(user.fee_tier)
}

} // verus!
