//! What this library asks of the custody service, and what it hears back.
//!
//! The library never moves tokens. An operation that needs a transfer comes in two
//! steps: a request function names the transfer, the host performs it, and the
//! operation itself takes the outcome and updates the ledger.

use vstd::prelude::*;

verus! {

/// A place that holds tokens.
#[derive(Clone, Copy, PartialEq, Eq, Debug, Structural)]
pub enum Vault {
    /// The participant's own balance, outside the program.
    UserWallet,
    /// The reserve that holds staked tokens.
    StakingReserve,
    /// The reserve from which rewards are paid.
    RewardReserve,
}

/// Under whose authority a transfer is made.
#[derive(Clone, Copy, PartialEq, Eq, Debug, Structural)]
pub enum TransferAuthority {
    /// The participant signs.
    User,
    /// The program signs for one of its reserves.
    Program,
}

/// A transfer for the custody service to perform.
#[derive(Clone, Copy, PartialEq, Eq, Debug, Structural)]
pub struct TransferRequest {
    pub from: Vault,
    pub to: Vault,
    pub amount: u64,
    pub authority: TransferAuthority,
}

/// What the custody service answered.
#[derive(Clone, Copy, PartialEq, Eq, Debug, Structural)]
pub enum TransferOutcome {
    /// The tokens have moved.
    Completed,
    /// The service declined; nothing has moved.
    Declined,
}

} // verus!
