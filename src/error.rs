use vstd::prelude::*;

verus! {

/// Every way in which a command of the escrow can be refused.
#[derive(Debug, Clone, PartialEq, Eq, Structural)]
pub enum ContractError {
    Unauthorized {},
    CW20ReceiveDisabled,
    CW20BalanceError,
    WithdrawalNotRequested,
    WithdrawalNotReady {},
    WithdrawalDenomMismatch {},
    WithdrawalCW20Mismatch {},
    WithdrawalAddressIsImmutable {},
    OverrideAddressIsImmutable {},
}

} // verus!
