//! Properties of the escrow as a whole, proved over the steps that its
//! commands and queries are specified by.
use vstd::prelude::*;

use crate::contract::execute_step;
use crate::error::ContractError;
use crate::execute::{
    claim_refusal, escrow_withdraw_step, native_withdraw_step, override_step, ready_time,
    requested_amount, start_withdraw_step, with_withdrawal,
};
use crate::msg::{ExecuteMsg, Transfer};
use crate::query::{has_pending, is_ready};
use crate::state::{Config, EscrowModel};

verus! {

/// Cancelling twice in a row: when a request is pending, the override
/// address's first cancellation succeeds and clears it, and the second
/// fails with `WithdrawalNotRequested`, changing nothing.
pub proof fn lemma_override_twice(m: EscrowModel, sender: Seq<char>)
    requires
        m.withdrawal is Some,
        sender == m.config.override_address@,
    ensures
        ({
            let (m1, r1) = override_step(m, sender);
            let (m2, r2) = override_step(m1, sender);
            &&& r1 is Ok
            &&& !has_pending(m1)
            &&& r2 == Err::<(), ContractError>(ContractError::WithdrawalNotRequested)
            &&& m2 == m1
        }),
{
}

/// A request just started is not ready at the moment it was started, for
/// any amount, whenever the delay is at least one day.
pub proof fn lemma_fresh_request_not_ready(
    m: EscrowModel,
    sender: Seq<char>,
    now: u64,
    denom_or_address: String,
    amount: u128,
)
    requires
        sender == m.config.withdraw_address@,
        m.config.withdraw_delay_in_days > 0,
        ready_time(now, m.config.withdraw_delay_in_days) <= u64::MAX,
    ensures
        is_ready(start_withdraw_step(m, sender, now, denom_or_address, amount).0, now) == Some(
            false,
        ),
{
    let d = m.config.withdraw_delay_in_days;
    assert(d * 86_400 * 1_000_000_000 >= 1) by (nonlinear_arith)
        requires
            d > 0,
    ;
}

/// Starting a request for `amount` of the native `denom` and claiming it
/// once it has matured transfers exactly `amount` of `denom` to the withdraw
/// address and leaves no request behind: the state is that from before the
/// start, with no request pending.
pub proof fn lemma_start_then_claim(
    m: EscrowModel,
    sender: Seq<char>,
    start: u64,
    later: u64,
    denom: String,
    amount: u128,
)
    requires
        sender == m.config.withdraw_address@,
        ready_time(start, m.config.withdraw_delay_in_days) < later,
    ensures
        ({
            let (m1, r1) = start_withdraw_step(m, sender, start, denom, amount);
            let (m2, r2) = native_withdraw_step(m1, sender, later, denom);
            &&& r1 is Ok
            &&& r2 == Ok::<Transfer, ContractError>(
                Transfer::Bank { to_address: m.config.withdraw_address, denom, amount },
            )
            &&& !has_pending(m2)
            &&& m2 == with_withdrawal(m, None)
        }),
{
}

/// The address that must send `msg`, for the commands that have one.
pub open spec fn required_role(c: Config, msg: ExecuteMsg) -> Option<Seq<char>> {
    match msg {
        ExecuteMsg::StartWithdraw { .. } => Some(c.withdraw_address@),
        ExecuteMsg::ExecuteNativeWithdraw { .. } => Some(c.withdraw_address@),
        ExecuteMsg::ExecuteCW20Withdraw { .. } => Some(c.withdraw_address@),
        ExecuteMsg::ExecuteEscrowCW20Withdraw { .. } => Some(c.withdraw_address@),
        ExecuteMsg::OverrideWithdraw {  } => Some(c.override_address@),
        ExecuteMsg::UpdateOverrideAddress { .. } => Some(c.override_address@),
        ExecuteMsg::UpdateWithdrawalAddress { .. } => Some(c.override_address@),
        ExecuteMsg::Receive { .. } => None,
    }
}

/// A command sent by anyone but the address it requires fails with
/// `Unauthorized` and changes nothing. A cancellation is the one command
/// that first looks for a pending request, so for it this holds while one
/// is pending.
pub proof fn lemma_unauthorized_changes_nothing(
    m: EscrowModel,
    sender: Seq<char>,
    now: u64,
    msg: ExecuteMsg,
)
    requires
        match required_role(m.config, msg) {
            Some(role) => sender != role,
            None => false,
        },
        msg is OverrideWithdraw ==> m.withdrawal is Some,
    ensures
        execute_step(m, sender, now, msg) == (m, Err::<crate::msg::ExecuteOutcome, ContractError>(
            ContractError::Unauthorized {  },
        )),
{
}

/// The state reached from `m` by the commands `steps`, each a sender, a
/// block time and a message, carried out in order.
pub open spec fn run(m: EscrowModel, steps: Seq<(Seq<char>, u64, ExecuteMsg)>) -> EscrowModel
    decreases steps.len(),
{
    if steps.len() == 0 {
        m
    } else {
        run(execute_step(m, steps[0].0, steps[0].1, steps[0].2).0, steps.subrange(1, steps.len() as int))
    }
}

/// Once the withdraw address is frozen, no sequence of commands changes it,
/// nor unfreezes it.
pub proof fn lemma_frozen_withdraw_address(
    m: EscrowModel,
    steps: Seq<(Seq<char>, u64, ExecuteMsg)>,
)
    requires
        m.config.set_withdraw_as_immutable,
    ensures
        run(m, steps).config.withdraw_address == m.config.withdraw_address,
        run(m, steps).config.set_withdraw_as_immutable,
    decreases steps.len(),
{
    if steps.len() > 0 {
        let n = execute_step(m, steps[0].0, steps[0].1, steps[0].2).0;
        assert(n.config.withdraw_address == m.config.withdraw_address);
        lemma_frozen_withdraw_address(n, steps.subrange(1, steps.len() as int));
    }
}

/// A claim out of the ledger for more than the token's ledger balance is
/// refused and leaves the state, the ledger included, unchanged; once the
/// caller, the feature and the request have passed their checks, the
/// refusal is `CW20BalanceError`.
pub proof fn lemma_overdraw_refused(m: EscrowModel, sender: Seq<char>, now: u64, address: String)
    requires
        m.balances.contains_key(address@),
        requested_amount(m) > m.balances[address@],
    ensures
        ({
            let (m1, r) = escrow_withdraw_step(m, sender, now, address);
            &&& r is Err
            &&& m1 == m
            &&& (sender == m.config.withdraw_address@ && m.config.enable_cw20_receive
                && claim_refusal(
                m,
                sender,
                now,
                address@,
                ContractError::WithdrawalCW20Mismatch {  },
            ) is None) ==> r == Err::<Transfer, ContractError>(ContractError::CW20BalanceError)
        }),
{
}

} // verus!
