use dao_escrow::contract::{execute, instantiate, query};
use dao_escrow::error::ContractError;
use dao_escrow::execute::{
    execute_cw20_withdraw, execute_escrow_cw20_withdraw, execute_receive, execute_withdraw,
    override_withdraw, start_withdraw, update_override_address, update_withdrawal_address,
};
use dao_escrow::msg::{
    ExecuteMsg, ExecuteOutcome, InstantiateMsg, QueryMsg, QueryResponse, Transfer,
    WithdrawalReadyResponse, WithdrawalRequestedResponse, WithdrawalTimestampResponse,
};
use dao_escrow::query::{get_withdraw_ready, get_withdraw_requested, query_config, query_withdraw_ready};
use dao_escrow::state::{Balances, State};

const B: &str = "beneficiary";
const O: &str = "override";
const X: &str = "ujuno";
const Y: &str = "uatom";
const TOKEN: &str = "token-contract";
const STRANGER: &str = "stranger";
const DAY: u64 = 86_400_000_000_000;
const HOUR: u64 = 3_600_000_000_000;
const T0: u64 = 1_000_000_000_000;

fn setup(days: u64, withdraw_immutable: bool, override_immutable: bool, receive: bool) -> State {
    instantiate(InstantiateMsg {
        enable_cw20_receive: receive,
        set_withdraw_as_immutable: withdraw_immutable,
        set_override_as_immutable: override_immutable,
        override_address: O.to_string(),
        withdraw_address: B.to_string(),
        withdraw_delay_in_days: days,
        native_denom: X.to_string(),
    })
}

fn s(x: &str) -> String {
    x.to_string()
}

fn pending(state: &State) -> bool {
    get_withdraw_requested(state).withdrawal_requested
}

#[test]
fn instantiate_sets_config_and_nothing_pending() {
    let state = setup(3, true, false, true);
    let c = query_config(&state);
    assert_eq!(c.withdraw_address, B);
    assert_eq!(c.override_address, O);
    assert_eq!(c.withdraw_delay_in_days, 3);
    assert_eq!(c.native_denom, X);
    assert!(c.set_withdraw_as_immutable);
    assert!(!c.set_override_as_immutable);
    assert!(c.enable_cw20_receive);
    assert!(!pending(&state));
    assert_eq!(get_withdraw_ready(&state), None);
    assert_eq!(query_withdraw_ready(&state, T0), None);
    assert_eq!(state.cw20_balances.get(&s(TOKEN)), None);
}

#[test]
fn override_twice_second_finds_nothing() {
    let mut state = setup(1, true, false, false);
    start_withdraw(&mut state, &s(B), T0, s(X), 10).unwrap();
    assert_eq!(override_withdraw(&mut state, &s(O)), Ok(()));
    assert_eq!(override_withdraw(&mut state, &s(O)), Err(ContractError::WithdrawalNotRequested));
    assert!(!pending(&state));
}

#[test]
fn fresh_request_is_not_ready() {
    for days in [1u64, 2, 28] {
        for amount in [0u128, 1, 2_000_000, u128::MAX] {
            let mut state = setup(days, true, false, false);
            start_withdraw(&mut state, &s(B), T0, s(X), amount).unwrap();
            assert_eq!(
                query_withdraw_ready(&state, T0),
                Some(WithdrawalReadyResponse { is_withdrawal_ready: false })
            );
        }
    }
}

#[test]
fn zero_delay_is_ready_strictly_after_start() {
    let mut state = setup(0, true, false, false);
    start_withdraw(&mut state, &s(B), T0, s(X), 5).unwrap();
    assert_eq!(query_withdraw_ready(&state, T0), Some(WithdrawalReadyResponse { is_withdrawal_ready: false }));
    assert_eq!(
        query_withdraw_ready(&state, T0 + 1),
        Some(WithdrawalReadyResponse { is_withdrawal_ready: true })
    );
}

#[test]
fn ready_time_is_start_plus_delay() {
    let mut state = setup(2, true, false, false);
    let r = start_withdraw(&mut state, &s(B), T0, s(X), 5);
    assert_eq!(r, Ok(T0 + 2 * DAY));
    assert_eq!(
        get_withdraw_ready(&state),
        Some(WithdrawalTimestampResponse { withdrawal_ready_timestamp: T0 + 2 * DAY })
    );
    // exactly at the maturity time the request is not yet claimable
    assert_eq!(
        query_withdraw_ready(&state, T0 + 2 * DAY),
        Some(WithdrawalReadyResponse { is_withdrawal_ready: false })
    );
    assert_eq!(
        execute_withdraw(&mut state, &s(B), T0 + 2 * DAY, s(X)),
        Err(ContractError::WithdrawalNotReady {})
    );
}

#[test]
fn start_then_claim_leaves_no_request() {
    let mut state = setup(1, true, false, false);
    let before = query_config(&state);
    start_withdraw(&mut state, &s(B), T0, s(X), 7).unwrap();
    let t = execute_withdraw(&mut state, &s(B), T0 + DAY + 1, s(X)).unwrap();
    assert_eq!(t, Transfer::Bank { to_address: s(B), denom: s(X), amount: 7 });
    assert!(!pending(&state));
    assert_eq!(get_withdraw_ready(&state), None);
    assert_eq!(query_config(&state), before);
}

#[test]
fn new_request_overwrites_pending_one() {
    let mut state = setup(1, true, false, false);
    start_withdraw(&mut state, &s(B), T0, s(X), 7).unwrap();
    start_withdraw(&mut state, &s(B), T0 + HOUR, s(Y), 9).unwrap();
    assert_eq!(
        get_withdraw_ready(&state),
        Some(WithdrawalTimestampResponse { withdrawal_ready_timestamp: T0 + HOUR + DAY })
    );
    let t = execute_withdraw(&mut state, &s(B), T0 + 2 * DAY, s(Y)).unwrap();
    assert_eq!(t, Transfer::Bank { to_address: s(B), denom: s(Y), amount: 9 });
}

#[test]
fn strangers_are_unauthorized_and_change_nothing() {
    let mut state = setup(1, false, false, true);
    execute_receive(&mut state, s(TOKEN), 100).unwrap();
    start_withdraw(&mut state, &s(B), T0, s(TOKEN), 10).unwrap();
    let config = query_config(&state);
    let ready = get_withdraw_ready(&state);
    let later = T0 + 2 * DAY;
    let msgs = vec![
        ExecuteMsg::StartWithdraw { denom_or_address: s(X), amount: 1 },
        ExecuteMsg::ExecuteNativeWithdraw { denom: s(TOKEN), amount: 10 },
        ExecuteMsg::ExecuteCW20Withdraw { address: s(TOKEN), amount: 10 },
        ExecuteMsg::ExecuteEscrowCW20Withdraw { address: s(TOKEN), amount: 10 },
        ExecuteMsg::OverrideWithdraw {},
        ExecuteMsg::UpdateOverrideAddress { address: s(STRANGER) },
        ExecuteMsg::UpdateWithdrawalAddress { address: s(STRANGER) },
    ];
    for msg in msgs {
        assert_eq!(execute(&mut state, &s(STRANGER), later, msg), Err(ContractError::Unauthorized {}));
        assert_eq!(query_config(&state), config);
        assert_eq!(get_withdraw_ready(&state), ready);
        assert_eq!(state.cw20_balances.get(&s(TOKEN)), Some(100));
    }
    // the beneficiary may not administer, nor the override authority claim
    assert_eq!(
        update_withdrawal_address(&mut state, &s(B), s(STRANGER)),
        Err(ContractError::Unauthorized {})
    );
    assert_eq!(
        execute_cw20_withdraw(&mut state, &s(O), later, s(TOKEN)),
        Err(ContractError::Unauthorized {})
    );
    assert_eq!(override_withdraw(&mut state, &s(B)), Err(ContractError::Unauthorized {}));
    assert!(pending(&state));
}

#[test]
fn override_without_request_reports_missing_request_first() {
    let mut state = setup(1, true, false, false);
    assert_eq!(override_withdraw(&mut state, &s(STRANGER)), Err(ContractError::WithdrawalNotRequested));
}

#[test]
fn frozen_withdraw_address_never_changes() {
    let mut state = setup(1, true, false, true);
    let steps = vec![
        (O, ExecuteMsg::UpdateWithdrawalAddress { address: s(STRANGER) }),
        (O, ExecuteMsg::UpdateOverrideAddress { address: s(STRANGER) }),
        (STRANGER, ExecuteMsg::UpdateWithdrawalAddress { address: s(STRANGER) }),
        (B, ExecuteMsg::StartWithdraw { denom_or_address: s(X), amount: 1 }),
        (STRANGER, ExecuteMsg::OverrideWithdraw {}),
        (TOKEN, ExecuteMsg::Receive { sender: s(TOKEN), amount: 4 }),
        (O, ExecuteMsg::UpdateWithdrawalAddress { address: s(O) }),
    ];
    for (sender, msg) in steps {
        let _ = execute(&mut state, &s(sender), T0, msg);
        assert_eq!(query_config(&state).withdraw_address, B);
    }
    assert_eq!(query_config(&state).override_address, STRANGER);
    assert_eq!(
        update_withdrawal_address(&mut state, &s(STRANGER), s(O)),
        Err(ContractError::WithdrawalAddressIsImmutable {})
    );
}

#[test]
fn frozen_override_address_is_refused() {
    let mut state = setup(1, false, true, false);
    assert_eq!(
        update_override_address(&mut state, &s(O), s(STRANGER)),
        Err(ContractError::OverrideAddressIsImmutable {})
    );
    assert_eq!(query_config(&state).override_address, O);
    // the withdraw address is still the override authority's to change
    assert_eq!(update_withdrawal_address(&mut state, &s(O), s(STRANGER)), Ok(()));
    assert_eq!(query_config(&state).withdraw_address, STRANGER);
}

#[test]
fn overdraw_from_ledger_is_refused() {
    let mut state = setup(1, true, false, true);
    execute_receive(&mut state, s(TOKEN), 100).unwrap();
    start_withdraw(&mut state, &s(B), T0, s(TOKEN), 150).unwrap();
    assert_eq!(
        execute_escrow_cw20_withdraw(&mut state, &s(B), T0 + 2 * DAY, s(TOKEN)),
        Err(ContractError::CW20BalanceError)
    );
    assert_eq!(state.cw20_balances.get(&s(TOKEN)), Some(100));
    assert!(pending(&state));
}

#[test]
fn claim_from_ledger_debits_it() {
    let mut state = setup(1, true, false, true);
    assert_eq!(execute_receive(&mut state, s(TOKEN), 120), Ok(120));
    assert_eq!(execute_receive(&mut state, s(TOKEN), 80), Ok(200));
    start_withdraw(&mut state, &s(B), T0, s(TOKEN), 150).unwrap();
    let t = execute_escrow_cw20_withdraw(&mut state, &s(B), T0 + 2 * DAY, s(TOKEN)).unwrap();
    assert_eq!(t, Transfer::Cw20 { contract_addr: s(TOKEN), recipient: s(B), amount: 150 });
    assert_eq!(state.cw20_balances.get(&s(TOKEN)), Some(50));
    assert!(!pending(&state));
}

#[test]
fn claim_from_ledger_needs_an_entry_and_the_feature() {
    let mut state = setup(1, true, false, true);
    start_withdraw(&mut state, &s(B), T0, s(TOKEN), 1).unwrap();
    assert_eq!(
        execute_escrow_cw20_withdraw(&mut state, &s(B), T0 + 2 * DAY, s(TOKEN)),
        Err(ContractError::CW20BalanceError)
    );
    let mut disabled = setup(1, true, false, false);
    start_withdraw(&mut disabled, &s(B), T0, s(TOKEN), 1).unwrap();
    assert_eq!(
        execute_escrow_cw20_withdraw(&mut disabled, &s(B), T0 + 2 * DAY, s(TOKEN)),
        Err(ContractError::CW20ReceiveDisabled)
    );
}

#[test]
fn receive_disabled_and_overflow() {
    let mut disabled = setup(1, true, false, false);
    assert_eq!(execute_receive(&mut disabled, s(TOKEN), 1), Err(ContractError::CW20ReceiveDisabled));
    let mut state = setup(1, true, false, true);
    assert_eq!(execute_receive(&mut state, s(TOKEN), u128::MAX), Ok(u128::MAX));
    assert_eq!(execute_receive(&mut state, s(TOKEN), 1), Err(ContractError::CW20BalanceError));
    assert_eq!(state.cw20_balances.get(&s(TOKEN)), Some(u128::MAX));
    assert_eq!(execute_receive(&mut state, s(Y), 3), Ok(3));
    assert_eq!(state.cw20_balances.get(&s(Y)), Some(3));
}

#[test]
fn scenario_claim_after_a_day_and_an_hour() {
    let mut state = setup(1, true, false, false);
    start_withdraw(&mut state, &s(B), T0, s(X), 2_000_000).unwrap();
    assert!(pending(&state));
    assert_eq!(query_withdraw_ready(&state, T0), Some(WithdrawalReadyResponse { is_withdrawal_ready: false }));
    let now = T0 + DAY + HOUR;
    assert_eq!(query_withdraw_ready(&state, now), Some(WithdrawalReadyResponse { is_withdrawal_ready: true }));
    let r = execute(&mut state, &s(B), now, ExecuteMsg::ExecuteNativeWithdraw { denom: s(X), amount: 2_000_000 });
    assert_eq!(
        r,
        Ok(ExecuteOutcome::Claimed(Transfer::Bank { to_address: s(B), denom: s(X), amount: 2_000_000 }))
    );
    assert_eq!(
        query(&state, now, QueryMsg::GetWithdrawalRequested {}),
        Some(QueryResponse::Requested(WithdrawalRequestedResponse { withdrawal_requested: false }))
    );
}

#[test]
fn scenario_override_before_maturity() {
    let mut state = setup(1, true, false, false);
    start_withdraw(&mut state, &s(B), T0, s(X), 2_000_000).unwrap();
    assert_eq!(execute(&mut state, &s(O), T0 + HOUR, ExecuteMsg::OverrideWithdraw {}), Ok(ExecuteOutcome::Overridden));
    assert!(!pending(&state));
    assert_eq!(
        execute_withdraw(&mut state, &s(B), T0 + DAY + HOUR, s(X)),
        Err(ContractError::WithdrawalNotRequested)
    );
    assert_eq!(query(&state, T0, QueryMsg::IsWithdrawalReady {}), None);
}

#[test]
fn scenario_claim_of_another_asset() {
    let mut state = setup(1, true, false, false);
    start_withdraw(&mut state, &s(B), T0, s(X), 2_000_000).unwrap();
    let now = T0 + DAY + HOUR;
    assert_eq!(execute_withdraw(&mut state, &s(B), now, s(Y)), Err(ContractError::WithdrawalDenomMismatch {}));
    assert_eq!(
        execute_cw20_withdraw(&mut state, &s(B), now, s(TOKEN)),
        Err(ContractError::WithdrawalCW20Mismatch {})
    );
    assert_eq!(
        get_withdraw_ready(&state),
        Some(WithdrawalTimestampResponse { withdrawal_ready_timestamp: T0 + DAY })
    );
    assert!(pending(&state));
}

#[test]
fn ledger_set_and_get() {
    let mut ledger = Balances::new();
    assert_eq!(ledger.get(&s(TOKEN)), None);
    ledger.set(s(TOKEN), 5);
    ledger.set(s(Y), 6);
    ledger.set(s(TOKEN), 7);
    assert_eq!(ledger.get(&s(TOKEN)), Some(7));
    assert_eq!(ledger.get(&s(Y)), Some(6));
    assert_eq!(ledger.get(&s(X)), None);
}

#[test]
fn queries_answer_from_state() {
    let mut state = setup(1, true, false, false);
    assert_eq!(query(&state, T0, QueryMsg::GetWithdrawalReadyTime {}), None);
    start_withdraw(&mut state, &s(B), T0, s(X), 1).unwrap();
    assert_eq!(
        query(&state, T0, QueryMsg::GetWithdrawalReadyTime {}),
        Some(QueryResponse::ReadyTime(WithdrawalTimestampResponse { withdrawal_ready_timestamp: T0 + DAY }))
    );
    match query(&state, T0, QueryMsg::GetConfig {}) {
        Some(QueryResponse::Config(c)) => assert_eq!(c, query_config(&state)),
        other => panic!("unexpected answer {:?}", other),
    }
}

#[test]
fn stranger_start_is_unauthorized_even_when_maturity_would_overflow() {
    let mut state = setup(u64::MAX, true, false, false);
    assert_eq!(
        start_withdraw(&mut state, &s(STRANGER), u64::MAX, s(X), 1),
        Err(ContractError::Unauthorized {})
    );
    assert_eq!(
        execute(&mut state, &s(STRANGER), u64::MAX, ExecuteMsg::StartWithdraw { denom_or_address: s(X), amount: 1 }),
        Err(ContractError::Unauthorized {})
    );
    assert!(!pending(&state));
    assert_eq!(query_config(&state).withdraw_delay_in_days, u64::MAX);
}
