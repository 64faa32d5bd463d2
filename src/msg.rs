//! The messages the escrow accepts and the values it answers with.
use vstd::prelude::*;

use crate::state::Config;

verus! {

/// Everything the escrow is set up with; addresses are expected to have
/// been validated by the host.
#[derive(Debug, Clone, PartialEq, Eq)]
pub struct InstantiateMsg {
    /// Whether pushed token deposits are accepted (fixed forever).
    pub enable_cw20_receive: bool,
    /// Whether the withdraw address is frozen (fixed forever).
    pub set_withdraw_as_immutable: bool,
    /// Whether the override address is frozen (fixed forever).
    pub set_override_as_immutable: bool,
    /// The dead-man switch: may cancel requests and change both addresses.
    pub override_address: String,
    /// The beneficiary, whose funds are locked here.
    pub withdraw_address: String,
    /// How many days a request takes to mature.
    pub withdraw_delay_in_days: u64,
    /// The chain's native denom.
    pub native_denom: String,
}

/// The commands of the escrow. The caller and the block time are supplied
/// beside the message.
#[derive(Debug, Clone, PartialEq, Eq)]
pub enum ExecuteMsg {
    /// Starts (or restarts) a withdrawal request; withdraw address only.
    StartWithdraw { denom_or_address: String, amount: u128 },
    /// Claims a matured request for a native denom; withdraw address only.
    /// The claims pay the requested amount; the `amount` given with them is
    /// not consulted.
    ExecuteNativeWithdraw { denom: String, amount: u128 },
    /// Claims a matured request by asking the token contract to move what
    /// it holds for the escrow; withdraw address only.
    ExecuteCW20Withdraw { address: String, amount: u128 },
    /// Claims a matured request out of the escrow's own ledger; withdraw
    /// address only.
    ExecuteEscrowCW20Withdraw { address: String, amount: u128 },
    /// Cancels the pending request; override address only.
    OverrideWithdraw {},
    /// Replaces the override address; override address only.
    UpdateOverrideAddress { address: String },
    /// Replaces the withdraw address; override address only.
    UpdateWithdrawalAddress { address: String },
    /// A token contract reports that `amount` of its token was sent here.
    Receive { sender: String, amount: u128 },
}

/// The read-only questions the escrow answers.
#[derive(Debug, Clone, Copy, PartialEq, Eq, Structural)]
pub enum QueryMsg {
    GetConfig {},
    GetWithdrawalReadyTime {},
    IsWithdrawalReady {},
    GetWithdrawalRequested {},
}

/// When the pending request matures, in nanoseconds since the epoch.
#[derive(Debug, Clone, Copy, PartialEq, Eq, Structural)]
pub struct WithdrawalTimestampResponse {
    pub withdrawal_ready_timestamp: u64,
}

/// Whether the pending request can be claimed now.
#[derive(Debug, Clone, Copy, PartialEq, Eq, Structural)]
pub struct WithdrawalReadyResponse {
    pub is_withdrawal_ready: bool,
}

/// Whether a request is pending.
#[derive(Debug, Clone, Copy, PartialEq, Eq, Structural)]
pub struct WithdrawalRequestedResponse {
    pub withdrawal_requested: bool,
}

/// The answer to a query.
#[derive(Debug, Clone, PartialEq, Eq)]
pub enum QueryResponse {
    Config(Config),
    ReadyTime(WithdrawalTimestampResponse),
    Ready(WithdrawalReadyResponse),
    Requested(WithdrawalRequestedResponse),
}

/// An instruction to move funds out of the escrow, for the host to carry
/// out.
#[derive(Debug, Clone, PartialEq, Eq)]
pub enum Transfer {
    /// Send `amount` of the native `denom` to `to_address`.
    Bank { to_address: String, denom: String, amount: u128 },
    /// Ask the token contract at `contract_addr` to transfer `amount` of its
    /// token from the escrow to `recipient`.
    Cw20 { contract_addr: String, recipient: String, amount: u128 },
}

/// What a successful command did.
#[derive(Debug, Clone, PartialEq, Eq)]
pub enum ExecuteOutcome {
    /// A deposit was recorded; `balance` is the token's new ledger balance.
    Received { balance: u128 },
    /// A request was recorded that matures at `ready_at`.
    WithdrawStarted { ready_at: u64 },
    /// A request was claimed with this transfer.
    Claimed(Transfer),
    /// The pending request was cancelled.
    Overridden,
    /// The override address was replaced.
    OverrideAddressUpdated,
    /// The withdraw address was replaced.
    WithdrawalAddressUpdated,
}

} // verus!
