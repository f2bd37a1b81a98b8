//! Reward distribution and fee-tier accounting for a trading venue.
//!
//! Volume is ledgered per user in epochs of fixed length. A claim converts one epoch's
//! volume into a token reward at the configured rate, scaled by the tier of the user's
//! staked balance, at most once per user and epoch. Token custody, the clock and the
//! proof of identity belong to the host: the operations here take the time and the
//! outcome of a transfer as plain values.

pub mod config;
pub mod custody;
pub mod identity;
pub mod laws;
pub mod rewards;
pub mod staking;
pub mod state;
pub mod tier;
pub mod volume;

pub use crate::config::{get_fee_discount, update_reward_rate};
pub use crate::custody::{TransferAuthority, TransferOutcome, TransferRequest, Vault};
pub use crate::identity::Identity;
pub use crate::rewards::{claim_request, claim_rewards, compute_reward};
pub use crate::staking::{stake_request, stake_tokens, unstake_request, unstake_tokens};
pub use crate::state::{create_user_account, initialize, ErrorCode, GlobalState, UserAccount};
pub use crate::tier::{calculate_fee_tier, fee_discount_of, get_reward_multiplier, FeeTier};
pub use crate::volume::{epoch_boundary_crossed, record_swap_volume};
