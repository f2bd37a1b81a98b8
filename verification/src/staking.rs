//! Staking and unstaking: the staked balance and the tier cached beside it.

use vstd::prelude::*;
use crate::custody::{TransferAuthority, TransferOutcome, TransferRequest, Vault};
use crate::state::{ErrorCode, UserAccount};
use crate::tier::{calculate_fee_tier, tier_of};

verus! {

/// The transfer that moves `amount` from the participant into the staking reserve.
pub open spec fn stake_transfer(amount: u64) -> TransferRequest {
    TransferRequest {
        from: Vault::UserWallet,
        to: Vault::StakingReserve,
        amount,
        authority: TransferAuthority::User,
    }
}

/// The transfer that moves `amount` from the staking reserve back to the participant.
pub open spec fn unstake_transfer(amount: u64) -> TransferRequest {
    TransferRequest {
        from: Vault::StakingReserve,
        to: Vault::UserWallet,
        amount,
        authority: TransferAuthority::Program,
    }
}

/// Why a stake of `amount` is refused before any transfer is asked for, if it is.
pub open spec fn stake_refusal(user: UserAccount, amount: u64) -> Option<ErrorCode> {
    if user.staked_amount + amount > u64::MAX {
        Some(ErrorCode::ArithmeticOverflow)
    } else {
        None
    }
}

/// Why an unstake of `amount` is refused before any transfer is asked for, if it is.
pub open spec fn unstake_refusal(user: UserAccount, amount: u64) -> Option<ErrorCode> {
    if user.staked_amount < amount {
        Some(ErrorCode::InsufficientStakedAmount)
    } else {
        None
    }
}

/// What an operation returns that has passed `refusal` to the custody service.
pub open spec fn settled(refusal: Option<ErrorCode>, custody: TransferOutcome) -> Result<(), ErrorCode> {
    match refusal {
        Some(error) => Err(error),
        None => match custody {
            TransferOutcome::Declined => Err(ErrorCode::CustodyTransferFailed),
            TransferOutcome::Completed => Ok(()),
        },
    }
}

/// The account with its staked balance set to `staked_amount` and its tier recomputed.
pub open spec fn with_stake(user: UserAccount, staked_amount: u64) -> UserAccount {
    UserAccount { staked_amount, fee_tier: tier_of(staked_amount as int), ..user }
}

/// First step of a stake: names the transfer to ask for. Changes nothing.
pub fn stake_request(user: &UserAccount, amount: u64) -> (result: Result<TransferRequest, ErrorCode>)
    ensures
        result == (match stake_refusal(*user, amount) {
            Some(error) => Err::<TransferRequest, ErrorCode>(error),
            None => Ok::<TransferRequest, ErrorCode>(stake_transfer(amount)),
        }),
{
    if user.staked_amount.checked_add(amount).is_none() {
        return Err(ErrorCode::ArithmeticOverflow);
    }
    Ok(TransferRequest {
        from: Vault::UserWallet,
        to: Vault::StakingReserve,
        amount,
        authority: TransferAuthority::User,
    })
}

/// Second step of a stake: `custody` is the outcome of the transfer that
/// `stake_request` named. Where it was completed, `amount` is added to the staked
/// balance and the tier is recomputed; otherwise the account stays as it was.
pub fn stake_tokens(user: &mut UserAccount, amount: u64, custody: TransferOutcome) -> (result: Result<(), ErrorCode>)
    ensures
        result == settled(stake_refusal(*old(user), amount), custody),
        result is Ok ==> {
            &&& final(user).staked_amount == old(user).staked_amount + amount
            &&& *final(user) == with_stake(*old(user), (old(user).staked_amount + amount) as u64)
            &&& final(user).tier_is_current()
        },
        result is Err ==> *final(user) == *old(user),
{
    let staked = match user.staked_amount.checked_add(amount) {
        Some(staked) => staked,
        None => return Err(ErrorCode::ArithmeticOverflow),
    };
    match custody {
        TransferOutcome::Declined => Err(ErrorCode::CustodyTransferFailed),
        TransferOutcome::Completed => {
            user.staked_amount = staked;
            user.fee_tier = calculate_fee_tier(staked);
            Ok(())
        },
    }
}

/// First step of an unstake: checks the balance and names the transfer to ask for.
/// Changes nothing.
pub fn unstake_request(user: &UserAccount, amount: u64) -> (result: Result<TransferRequest, ErrorCode>)
    ensures
        result == (match unstake_refusal(*user, amount) {
            Some(error) => Err::<TransferRequest, ErrorCode>(error),
            None => Ok::<TransferRequest, ErrorCode>(unstake_transfer(amount)),
        }),
{
    if user.staked_amount < amount {
        return Err(ErrorCode::InsufficientStakedAmount);
    }
    Ok(TransferRequest {
        from: Vault::StakingReserve,
        to: Vault::UserWallet,
        amount,
        authority: TransferAuthority::Program,
    })
}

/// Second step of an unstake: `custody` is the outcome of the transfer that
/// `unstake_request` named. Where it was completed, `amount` is taken from the staked
/// balance and the tier is recomputed; otherwise the account stays as it was, staked
/// balance and tier included.
pub fn unstake_tokens(user: &mut UserAccount, amount: u64, custody: TransferOutcome) -> (result: Result<(), ErrorCode>)
    ensures
        result == settled(unstake_refusal(*old(user), amount), custody),
        result is Ok ==> {
            &&& final(user).staked_amount == old(user).staked_amount - amount
            &&& *final(user) == with_stake(*old(user), (old(user).staked_amount - amount) as u64)
            &&& final(user).tier_is_current()
        },
        result is Err ==> *final(user) == *old(user),
{
    if user.staked_amount < amount {
        return Err(ErrorCode::InsufficientStakedAmount);
    }
    match custody {
        TransferOutcome::Declined => Err(ErrorCode::CustodyTransferFailed),
        TransferOutcome::Completed => {
            let staked: u64 = user.staked_amount - amount;
            user.staked_amount = staked;
            user.fee_tier = calculate_fee_tier(staked);
            Ok(())
        },
    }
}

} // verus!
