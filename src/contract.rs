//! The escrow's entry points: instantiation, the command dispatcher and
//! the query dispatcher.
use vstd::prelude::*;

use crate::error::ContractError;
use crate::execute::{
    cw20_withdraw_step, escrow_withdraw_step, execute_cw20_withdraw, execute_escrow_cw20_withdraw,
    execute_receive, execute_withdraw, native_withdraw_step, override_step, override_withdraw,
    ready_time, receive_step, start_withdraw, start_withdraw_step, update_override_address,
    update_override_step, update_withdrawal_address, update_withdrawal_step,
};
use crate::msg::{
    ExecuteMsg, ExecuteOutcome, InstantiateMsg, QueryMsg, QueryResponse, Transfer,
    WithdrawalReadyResponse, WithdrawalRequestedResponse, WithdrawalTimestampResponse,
};
use crate::query::{
    get_withdraw_ready, get_withdraw_requested, has_pending, is_ready, query_config,
    query_withdraw_ready, ready_at_of,
};
use crate::state::{Balances, Config, EscrowModel, State};

verus! {

/// The configuration that `msg` sets up.
pub open spec fn config_of(msg: InstantiateMsg) -> Config {
    Config {
        enable_cw20_receive: msg.enable_cw20_receive,
        set_withdraw_as_immutable: msg.set_withdraw_as_immutable,
        set_override_as_immutable: msg.set_override_as_immutable,
        withdraw_address: msg.withdraw_address,
        override_address: msg.override_address,
        withdraw_delay_in_days: msg.withdraw_delay_in_days,
        native_denom: msg.native_denom,
    }
}

/// A fresh escrow: the configuration of `msg`, no request, an empty ledger.
pub open spec fn initial_model(msg: InstantiateMsg) -> EscrowModel {
    EscrowModel {
        config: config_of(msg),
        withdrawal: None,
        balances: Map::empty(),
    }
}

/// Sets up the escrow as `msg` says.
pub fn instantiate(msg: InstantiateMsg) -> (r: State)
    ensures
        r.wf(),
        r@ == initial_model(msg),
{
    let config = Config {
        override_address: msg.override_address,
        withdraw_address: msg.withdraw_address,
        set_override_as_immutable: msg.set_override_as_immutable,
        set_withdraw_as_immutable: msg.set_withdraw_as_immutable,
        withdraw_delay_in_days: msg.withdraw_delay_in_days,
        native_denom: msg.native_denom,
        enable_cw20_receive: msg.enable_cw20_receive,
    };
    State { config, withdrawal: None, cw20_balances: Balances::new() }
}

pub open spec fn outcome_of_unit(
    r: Result<(), ContractError>,
    outcome: ExecuteOutcome,
) -> Result<ExecuteOutcome, ContractError> {
    match r {
        Ok(_) => Ok(outcome),
        Err(e) => Err(e),
    }
}

pub open spec fn outcome_of_transfer(r: Result<Transfer, ContractError>) -> Result<
    ExecuteOutcome,
    ContractError,
> {
    match r {
        Ok(t) => Ok(ExecuteOutcome::Claimed(t)),
        Err(e) => Err(e),
    }
}

/// The step that the command `msg`, sent by `sender` at `now`, takes from
/// `m`, with its answer.
pub open spec fn execute_step(m: EscrowModel, sender: Seq<char>, now: u64, msg: ExecuteMsg) -> (
    EscrowModel,
    Result<ExecuteOutcome, ContractError>,
) {
    match msg {
        ExecuteMsg::StartWithdraw { denom_or_address, amount } => {
            let (n, r) = start_withdraw_step(m, sender, now, denom_or_address, amount);
            (
                n,
                match r {
                    Ok(t) => Ok(ExecuteOutcome::WithdrawStarted { ready_at: t }),
                    Err(e) => Err(e),
                },
            )
        },
        ExecuteMsg::ExecuteNativeWithdraw { denom, amount } => {
            let (n, r) = native_withdraw_step(m, sender, now, denom);
            (n, outcome_of_transfer(r))
        },
        ExecuteMsg::ExecuteCW20Withdraw { address, amount } => {
            let (n, r) = cw20_withdraw_step(m, sender, now, address);
            (n, outcome_of_transfer(r))
        },
        ExecuteMsg::ExecuteEscrowCW20Withdraw { address, amount } => {
            let (n, r) = escrow_withdraw_step(m, sender, now, address);
            (n, outcome_of_transfer(r))
        },
        ExecuteMsg::OverrideWithdraw {  } => {
            let (n, r) = override_step(m, sender);
            (n, outcome_of_unit(r, ExecuteOutcome::Overridden))
        },
        ExecuteMsg::UpdateOverrideAddress { address } => {
            let (n, r) = update_override_step(m, sender, address);
            (n, outcome_of_unit(r, ExecuteOutcome::OverrideAddressUpdated))
        },
        ExecuteMsg::UpdateWithdrawalAddress { address } => {
            let (n, r) = update_withdrawal_step(m, sender, address);
            (n, outcome_of_unit(r, ExecuteOutcome::WithdrawalAddressUpdated))
        },
        ExecuteMsg::Receive { sender: token, amount } => {
            let (n, r) = receive_step(m, token@, amount);
            (
                n,
                match r {
                    Ok(b) => Ok(ExecuteOutcome::Received { balance: b }),
                    Err(e) => Err(e),
                },
            )
        },
    }
}

/// Whether the command `msg`, sent by `sender` at `now`, can be carried out
/// on `m` without leaving the range of timestamps: only a start request by
/// the withdraw address computes a maturity time.
pub open spec fn in_time_range(m: EscrowModel, sender: Seq<char>, now: u64, msg: ExecuteMsg) -> bool {
    (msg is StartWithdraw && sender == m.config.withdraw_address@) ==> ready_time(
        now,
        m.config.withdraw_delay_in_days,
    ) <= u64::MAX
}

/// Carries out the command `msg`, sent by `sender` at block time `now`.
pub fn execute(state: &mut State, sender: &String, now: u64, msg: ExecuteMsg) -> (r: Result<
    ExecuteOutcome,
    ContractError,
>)
    requires
        old(state).wf(),
        in_time_range(old(state)@, sender@, now, msg),
    ensures
        final(state).wf(),
        (final(state)@, r) == execute_step(old(state)@, sender@, now, msg),
{
    match msg {
        ExecuteMsg::StartWithdraw { denom_or_address, amount } => {
            let ready_at = start_withdraw(state, sender, now, denom_or_address, amount)?;
            Ok(ExecuteOutcome::WithdrawStarted { ready_at })
        },
        ExecuteMsg::ExecuteNativeWithdraw { denom, amount } => {
            let t = execute_withdraw(state, sender, now, denom)?;
            Ok(ExecuteOutcome::Claimed(t))
        },
        ExecuteMsg::ExecuteCW20Withdraw { address, amount } => {
            let t = execute_cw20_withdraw(state, sender, now, address)?;
            Ok(ExecuteOutcome::Claimed(t))
        },
        ExecuteMsg::ExecuteEscrowCW20Withdraw { address, amount } => {
            let t = execute_escrow_cw20_withdraw(state, sender, now, address)?;
            Ok(ExecuteOutcome::Claimed(t))
        },
        ExecuteMsg::OverrideWithdraw {  } => {
            override_withdraw(state, sender)?;
            Ok(ExecuteOutcome::Overridden)
        },
        ExecuteMsg::UpdateOverrideAddress { address } => {
            update_override_address(state, sender, address)?;
            Ok(ExecuteOutcome::OverrideAddressUpdated)
        },
        ExecuteMsg::UpdateWithdrawalAddress { address } => {
            update_withdrawal_address(state, sender, address)?;
            Ok(ExecuteOutcome::WithdrawalAddressUpdated)
        },
        ExecuteMsg::Receive { sender: token, amount } => {
            let balance = execute_receive(state, token, amount)?;
            Ok(ExecuteOutcome::Received { balance })
        },
    }
}

/// The answer to the query `msg` at `now` on `m`; `None` where the query
/// asks about a request and none is pending.
pub open spec fn query_answer(m: EscrowModel, now: u64, msg: QueryMsg) -> Option<QueryResponse> {
    match msg {
        QueryMsg::GetConfig {  } => Some(QueryResponse::Config(m.config)),
        QueryMsg::GetWithdrawalReadyTime {  } => match ready_at_of(m) {
            Some(t) => Some(
                QueryResponse::ReadyTime(WithdrawalTimestampResponse { withdrawal_ready_timestamp: t }),
            ),
            None => None,
        },
        QueryMsg::IsWithdrawalReady {  } => match is_ready(m, now) {
            Some(b) => Some(QueryResponse::Ready(WithdrawalReadyResponse { is_withdrawal_ready: b })),
            None => None,
        },
        QueryMsg::GetWithdrawalRequested {  } => Some(
            QueryResponse::Requested(WithdrawalRequestedResponse { withdrawal_requested: has_pending(m) }),
        ),
    }
}

/// Answers the query `msg` at block time `now`.
pub fn query(state: &State, now: u64, msg: QueryMsg) -> (r: Option<QueryResponse>)
    ensures
        r == query_answer(state@, now, msg),
{
    match msg {
        QueryMsg::GetConfig {  } => Some(QueryResponse::Config(query_config(state))),
        QueryMsg::GetWithdrawalReadyTime {  } => match get_withdraw_ready(state) {
            Some(t) => Some(QueryResponse::ReadyTime(t)),
            None => None,
        },
        QueryMsg::IsWithdrawalReady {  } => match query_withdraw_ready(state, now) {
            Some(b) => Some(QueryResponse::Ready(b)),
            None => None,
        },
        QueryMsg::GetWithdrawalRequested {  } => Some(QueryResponse::Requested(get_withdraw_requested(state))),
    }
}

} // verus!
