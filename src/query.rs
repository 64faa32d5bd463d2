//! Read-only projections of the escrow's state.
use vstd::prelude::*;

use crate::msg::{WithdrawalReadyResponse, WithdrawalRequestedResponse, WithdrawalTimestampResponse};
use crate::state::{Config, EscrowModel, State};

verus! {

/// When the pending request matures, if one is pending.
pub open spec fn ready_at_of(m: EscrowModel) -> Option<u64> {
    match m.withdrawal {
        Some(w) => Some(w.ready_at),
        None => None,
    }
}

/// Whether the pending request can be claimed at `now` (strictly after it
/// matures), if one is pending.
pub open spec fn is_ready(m: EscrowModel, now: u64) -> Option<bool> {
    match m.withdrawal {
        Some(w) => Some(now > w.ready_at),
        None => None,
    }
}

/// Whether a request is pending.
pub open spec fn has_pending(m: EscrowModel) -> bool {
    m.withdrawal is Some
}

/// A copy of the configuration.
pub fn query_config(state: &State) -> (r: Config)
    ensures
        r == state.config,
{
    let c = &state.config;
    Config {
        enable_cw20_receive: c.enable_cw20_receive,
        set_withdraw_as_immutable: c.set_withdraw_as_immutable,
        set_override_as_immutable: c.set_override_as_immutable,
        withdraw_address: c.withdraw_address.clone(),
        override_address: c.override_address.clone(),
        withdraw_delay_in_days: c.withdraw_delay_in_days,
        native_denom: c.native_denom.clone(),
    }
}

/// When the pending request matures; `None` when no request is pending.
pub fn get_withdraw_ready(state: &State) -> (r: Option<WithdrawalTimestampResponse>)
    ensures
        r == (match ready_at_of(state@) {
            Some(t) => Some(WithdrawalTimestampResponse { withdrawal_ready_timestamp: t }),
            None => None::<WithdrawalTimestampResponse>,
        }),
{
    match &state.withdrawal {
        Some(wr) => Some(WithdrawalTimestampResponse { withdrawal_ready_timestamp: wr.ready_at }),
        None => None,
    }
}

/// Whether the pending request can be claimed at `now`; `None` when no
/// request is pending.
pub fn query_withdraw_ready(state: &State, now: u64) -> (r: Option<WithdrawalReadyResponse>)
    ensures
        r == (match is_ready(state@, now) {
            Some(b) => Some(WithdrawalReadyResponse { is_withdrawal_ready: b }),
            None => None::<WithdrawalReadyResponse>,
        }),
{
    match &state.withdrawal {
        Some(wr) => Some(WithdrawalReadyResponse { is_withdrawal_ready: now > wr.ready_at }),
        None => None,
    }
}

/// Whether a request is pending; never fails.
pub fn get_withdraw_requested(state: &State) -> (r: WithdrawalRequestedResponse)
    ensures
        r.withdrawal_requested == has_pending(state@),
{
    WithdrawalRequestedResponse { withdrawal_requested: state.withdrawal.is_some() }
}

} // verus!
