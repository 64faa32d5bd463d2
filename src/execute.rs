//! The commands of the escrow. Each one is stated as a step from the model
//! of the state before to the model after, with the command's answer; the
//! executable command is proved to take exactly that step. A refused
//! command leaves the state as it was.
use vstd::prelude::*;

use crate::arith::{
    checked_add_amount, checked_sub_amount, plus_seconds, NANOS_PER_SECOND, SECONDS_PER_DAY,
};
use crate::error::ContractError;
use crate::msg::Transfer;
use crate::state::{Config, EscrowModel, State, Withdrawal};

verus! {

/// The moment, in nanoseconds, at which a request made at `now` matures.
pub open spec fn ready_time(now: u64, delay_in_days: u64) -> int {
    now + delay_in_days * SECONDS_PER_DAY * NANOS_PER_SECOND
}

/// `m` with its pending request replaced by `w`.
pub open spec fn with_withdrawal(m: EscrowModel, w: Option<Withdrawal>) -> EscrowModel {
    EscrowModel { config: m.config, withdrawal: w, balances: m.balances }
}

/// `m` with its configuration replaced by `c`.
pub open spec fn with_config(m: EscrowModel, c: Config) -> EscrowModel {
    EscrowModel { config: c, withdrawal: m.withdrawal, balances: m.balances }
}

/// A token contract `sender` pushes `amount` of its token: it is added to
/// the ledger entry of `sender` (created if missing), refused when pushes
/// are disabled or the sum overflows.
pub open spec fn receive_step(m: EscrowModel, sender: Seq<char>, amount: u128) -> (
    EscrowModel,
    Result<u128, ContractError>,
) {
    if !m.config.enable_cw20_receive {
        (m, Err(ContractError::CW20ReceiveDisabled))
    } else {
        let total: int = if m.balances.contains_key(sender) {
            m.balances[sender] + amount
        } else {
            amount as int
        };
        if total > u128::MAX {
            (m, Err(ContractError::CW20BalanceError))
        } else {
            (
                EscrowModel {
                    config: m.config,
                    withdrawal: m.withdrawal,
                    balances: m.balances.insert(sender, total as u128),
                },
                Ok(total as u128),
            )
        }
    }
}

/// The withdraw address starts a request, which overwrites any pending
/// one and matures `withdraw_delay_in_days` days after `now`.
pub open spec fn start_withdraw_step(
    m: EscrowModel,
    sender: Seq<char>,
    now: u64,
    denom_or_address: String,
    amount: u128,
) -> (EscrowModel, Result<u64, ContractError>) {
    if sender != m.config.withdraw_address@ {
        (m, Err(ContractError::Unauthorized {  }))
    } else {
        let ready_at = ready_time(now, m.config.withdraw_delay_in_days) as u64;
        (
            with_withdrawal(
                m,
                Some(Withdrawal { ready_at, denom_or_address, amount }),
            ),
            Ok(ready_at),
        )
    }
}

/// Why a claim of `asset` by `sender` at `now` is refused, if it is:
/// the caller must be the withdraw address, a request must be pending and
/// matured (strictly after its `ready_at`), and name `asset`; otherwise the
/// claim fails with `mismatch`.
pub open spec fn claim_refusal(
    m: EscrowModel,
    sender: Seq<char>,
    now: u64,
    asset: Seq<char>,
    mismatch: ContractError,
) -> Option<ContractError> {
    if sender != m.config.withdraw_address@ {
        Some(ContractError::Unauthorized {  })
    } else {
        match m.withdrawal {
            None => Some(ContractError::WithdrawalNotRequested),
            Some(w) => if now <= w.ready_at {
                Some(ContractError::WithdrawalNotReady {  })
            } else if asset != w.denom_or_address@ {
                Some(mismatch)
            } else {
                None
            },
        }
    }
}

/// The amount of the pending request (zero if there is none).
pub open spec fn requested_amount(m: EscrowModel) -> u128 {
    match m.withdrawal {
        Some(w) => w.amount,
        None => 0,
    }
}

/// A matured request for the native `denom` is claimed: the requested
/// amount is sent to the withdraw address and the request is cleared.
pub open spec fn native_withdraw_step(m: EscrowModel, sender: Seq<char>, now: u64, denom: String) -> (
    EscrowModel,
    Result<Transfer, ContractError>,
) {
    match claim_refusal(m, sender, now, denom@, ContractError::WithdrawalDenomMismatch {  }) {
        Some(e) => (m, Err(e)),
        None => (
            with_withdrawal(m, None),
            Ok(
                Transfer::Bank {
                    to_address: m.config.withdraw_address,
                    denom,
                    amount: requested_amount(m),
                },
            ),
        ),
    }
}

/// A matured request for the token at `address` is claimed by asking that
/// token contract to transfer the requested amount to the withdraw
/// address; the ledger is not touched and the request is cleared.
pub open spec fn cw20_withdraw_step(m: EscrowModel, sender: Seq<char>, now: u64, address: String) -> (
    EscrowModel,
    Result<Transfer, ContractError>,
) {
    match claim_refusal(m, sender, now, address@, ContractError::WithdrawalCW20Mismatch {  }) {
        Some(e) => (m, Err(e)),
        None => (
            with_withdrawal(m, None),
            Ok(
                Transfer::Cw20 {
                    contract_addr: address,
                    recipient: m.config.withdraw_address,
                    amount: requested_amount(m),
                },
            ),
        ),
    }
}

/// A matured request for the token at `address` is claimed out of the
/// ledger: pushes must be enabled and the token must have a ledger entry
/// that covers the requested amount, which is debited and transferred to
/// the withdraw address; the request is cleared.
pub open spec fn escrow_withdraw_step(
    m: EscrowModel,
    sender: Seq<char>,
    now: u64,
    address: String,
) -> (EscrowModel, Result<Transfer, ContractError>) {
    if sender != m.config.withdraw_address@ {
        (m, Err(ContractError::Unauthorized {  }))
    } else if !m.config.enable_cw20_receive {
        (m, Err(ContractError::CW20ReceiveDisabled))
    } else if !m.balances.contains_key(address@) {
        (m, Err(ContractError::CW20BalanceError))
    } else {
        match claim_refusal(m, sender, now, address@, ContractError::WithdrawalCW20Mismatch {  }) {
            Some(e) => (m, Err(e)),
            None => if requested_amount(m) > m.balances[address@] {
                (m, Err(ContractError::CW20BalanceError))
            } else {
                (
                    EscrowModel {
                        config: m.config,
                        withdrawal: None,
                        balances: m.balances.insert(
                            address@,
                            (m.balances[address@] - requested_amount(m)) as u128,
                        ),
                    },
                    Ok(
                        Transfer::Cw20 {
                            contract_addr: address,
                            recipient: m.config.withdraw_address,
                            amount: requested_amount(m),
                        },
                    ),
                )
            },
        }
    }
}

/// The override address cancels the pending request. Whether a request is
/// pending is checked before the caller is.
pub open spec fn override_step(m: EscrowModel, sender: Seq<char>) -> (
    EscrowModel,
    Result<(), ContractError>,
) {
    if m.withdrawal is None {
        (m, Err(ContractError::WithdrawalNotRequested))
    } else if sender != m.config.override_address@ {
        (m, Err(ContractError::Unauthorized {  }))
    } else {
        (with_withdrawal(m, None), Ok(()))
    }
}

/// The override address replaces itself with `address`, unless frozen.
pub open spec fn update_override_step(m: EscrowModel, sender: Seq<char>, address: String) -> (
    EscrowModel,
    Result<(), ContractError>,
) {
    if sender != m.config.override_address@ {
        (m, Err(ContractError::Unauthorized {  }))
    } else if m.config.set_override_as_immutable {
        (m, Err(ContractError::OverrideAddressIsImmutable {  }))
    } else {
        (with_config(m, Config { override_address: address, ..m.config }), Ok(()))
    }
}

/// The override address replaces the withdraw address with `address`,
/// unless it is frozen.
pub open spec fn update_withdrawal_step(m: EscrowModel, sender: Seq<char>, address: String) -> (
    EscrowModel,
    Result<(), ContractError>,
) {
    if sender != m.config.override_address@ {
        (m, Err(ContractError::Unauthorized {  }))
    } else if m.config.set_withdraw_as_immutable {
        (m, Err(ContractError::WithdrawalAddressIsImmutable {  }))
    } else {
        (with_config(m, Config { withdraw_address: address, ..m.config }), Ok(()))
    }
}

/// Records a push of `amount` tokens by the token contract `sender`.
pub fn execute_receive(state: &mut State, sender: String, amount: u128) -> (r: Result<
    u128,
    ContractError,
>)
    requires
        old(state).wf(),
    ensures
        final(state).wf(),
        (final(state)@, r) == receive_step(old(state)@, sender@, amount),
{
    if !state.config.enable_cw20_receive {
        return Err(ContractError::CW20ReceiveDisabled);
    }
    let updated_balance = match state.cw20_balances.get(&sender) {
        Some(balance) => match checked_add_amount(balance, amount) {
            Some(sum) => sum,
            None => {
                return Err(ContractError::CW20BalanceError);
            },
        },
        None => amount,
    };
    state.cw20_balances.set(sender, updated_balance);
    Ok(updated_balance)
}

/// Starts a withdrawal request for `amount` of `denom_or_address`, maturing
/// `withdraw_delay_in_days` days after `now`; answers the maturity time.
pub fn start_withdraw(
    state: &mut State,
    sender: &String,
    now: u64,
    denom_or_address: String,
    amount: u128,
) -> (r: Result<u64, ContractError>)
    requires
        old(state).wf(),
        sender@ == old(state).config.withdraw_address@ ==> ready_time(
            now,
            old(state).config.withdraw_delay_in_days,
        ) <= u64::MAX,
    ensures
        final(state).wf(),
        (final(state)@, r) == start_withdraw_step(
            old(state)@,
            sender@,
            now,
            denom_or_address,
            amount,
        ),
{
    if *sender != state.config.withdraw_address {
        return Err(ContractError::Unauthorized {  });
    }
    let delay_in_days: u64 = state.config.withdraw_delay_in_days;
    proof {
        assert(delay_in_days * SECONDS_PER_DAY * NANOS_PER_SECOND == (delay_in_days
            * SECONDS_PER_DAY) * NANOS_PER_SECOND) by (nonlinear_arith);
        assert(delay_in_days * SECONDS_PER_DAY <= delay_in_days * SECONDS_PER_DAY
            * NANOS_PER_SECOND) by (nonlinear_arith);
    }
    let delay_in_seconds: u64 = delay_in_days * SECONDS_PER_DAY;
    let ready_at = plus_seconds(now, delay_in_seconds);
    state.withdrawal = Some(Withdrawal { ready_at, denom_or_address, amount });
    Ok(ready_at)
}

/// Checks a claim of `asset` by `sender` at `now` against the pending
/// request, failing with `mismatch` when the request names another asset.
fn check_claim(
    state: &State,
    sender: &String,
    now: u64,
    asset: &String,
    mismatch: ContractError,
) -> (r: Result<u128, ContractError>)
    ensures
        match claim_refusal(state@, sender@, now, asset@, mismatch) {
            Some(e) => r == Err::<u128, ContractError>(e),
            None => r == Ok::<u128, ContractError>(requested_amount(state@)),
        },
{
    if *sender != state.config.withdraw_address {
        return Err(ContractError::Unauthorized {  });
    }
    match &state.withdrawal {
        None => Err(ContractError::WithdrawalNotRequested),
        Some(wr) => {
            if now <= wr.ready_at {
                Err(ContractError::WithdrawalNotReady {  })
            } else if *asset != wr.denom_or_address {
                Err(mismatch)
            } else {
                Ok(wr.amount)
            }
        },
    }
}

/// Claims a matured request for the native `denom`: answers the transfer
/// of the requested amount to the withdraw address and clears the request.
pub fn execute_withdraw(state: &mut State, sender: &String, now: u64, denom: String) -> (r: Result<
    Transfer,
    ContractError,
>)
    requires
        old(state).wf(),
    ensures
        final(state).wf(),
        (final(state)@, r) == native_withdraw_step(old(state)@, sender@, now, denom),
{
    let amount = check_claim(state, sender, now, &denom, ContractError::WithdrawalDenomMismatch {  })?;
    let msg = Transfer::Bank { to_address: state.config.withdraw_address.clone(), denom, amount };
    state.withdrawal = None;
    Ok(msg)
}

/// Claims a matured request for the token at `address`, to be paid by that
/// token contract out of what it holds for the escrow; clears the request.
pub fn execute_cw20_withdraw(state: &mut State, sender: &String, now: u64, address: String) -> (r:
    Result<Transfer, ContractError>)
    requires
        old(state).wf(),
    ensures
        final(state).wf(),
        (final(state)@, r) == cw20_withdraw_step(old(state)@, sender@, now, address),
{
    let amount = check_claim(state, sender, now, &address, ContractError::WithdrawalCW20Mismatch {  })?;
    let msg = Transfer::Cw20 {
        contract_addr: address,
        recipient: state.config.withdraw_address.clone(),
        amount,
    };
    state.withdrawal = None;
    Ok(msg)
}

/// Claims a matured request for the token at `address` out of the ledger:
/// debits the requested amount, answers its transfer to the withdraw
/// address and clears the request.
pub fn execute_escrow_cw20_withdraw(
    state: &mut State,
    sender: &String,
    now: u64,
    address: String,
) -> (r: Result<Transfer, ContractError>)
    requires
        old(state).wf(),
    ensures
        final(state).wf(),
        (final(state)@, r) == escrow_withdraw_step(old(state)@, sender@, now, address),
{
    if *sender != state.config.withdraw_address {
        return Err(ContractError::Unauthorized {  });
    }
    if !state.config.enable_cw20_receive {
        return Err(ContractError::CW20ReceiveDisabled);
    }
    let cw20_balance = match state.cw20_balances.get(&address) {
        Some(b) => b,
        None => {
            return Err(ContractError::CW20BalanceError);
        },
    };
    let amount = check_claim(state, sender, now, &address, ContractError::WithdrawalCW20Mismatch {  })?;
    let new_balance = match checked_sub_amount(cw20_balance, amount) {
        Some(b) => b,
        None => {
            return Err(ContractError::CW20BalanceError);
        },
    };
    let msg = Transfer::Cw20 {
        contract_addr: address.clone(),
        recipient: state.config.withdraw_address.clone(),
        amount,
    };
    state.cw20_balances.set(address, new_balance);
    state.withdrawal = None;
    Ok(msg)
}

/// Cancels the pending request; only the override address may.
pub fn override_withdraw(state: &mut State, sender: &String) -> (r: Result<(), ContractError>)
    requires
        old(state).wf(),
    ensures
        final(state).wf(),
        (final(state)@, r) == override_step(old(state)@, sender@),
{
    if state.withdrawal.is_none() {
        return Err(ContractError::WithdrawalNotRequested);
    }
    if *sender != state.config.override_address {
        return Err(ContractError::Unauthorized {  });
    }
    state.withdrawal = None;
    Ok(())
}

/// Replaces the override address with `address`, unless it is frozen.
pub fn update_override_address(state: &mut State, sender: &String, address: String) -> (r: Result<
    (),
    ContractError,
>)
    requires
        old(state).wf(),
    ensures
        final(state).wf(),
        (final(state)@, r) == update_override_step(old(state)@, sender@, address),
{
    if *sender != state.config.override_address {
        return Err(ContractError::Unauthorized {  });
    }
    if state.config.set_override_as_immutable {
        return Err(ContractError::OverrideAddressIsImmutable {  });
    }
    state.config.override_address = address;
    Ok(())
}

/// Replaces the withdraw address with `address`, unless it is frozen;
/// only the override address may.
pub fn update_withdrawal_address(state: &mut State, sender: &String, address: String) -> (r:
    Result<(), ContractError>)
    requires
        old(state).wf(),
    ensures
        final(state).wf(),
        (final(state)@, r) == update_withdrawal_step(old(state)@, sender@, address),
{
    if *sender != state.config.override_address {
        return Err(ContractError::Unauthorized {  });
    }
    if state.config.set_withdraw_as_immutable {
        return Err(ContractError::WithdrawalAddressIsImmutable {  });
    }
    state.config.withdraw_address = address;
    Ok(())
}

} // verus!
