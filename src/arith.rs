//! The token and time arithmetic of the escrow, done by the chain's own
//! number types.
use vstd::prelude::*;

verus! {

/// Nanoseconds in one second.
pub const NANOS_PER_SECOND: u64 = 1_000_000_000;

/// Seconds in one day.
pub const SECONDS_PER_DAY: u64 = 86_400;

/// Relies on `cosmwasm_std::Timestamp::plus_seconds`: the timestamp moved
/// forward by `seconds` whole seconds, exact whenever it stays in range
/// (out of range it panics, which `requires` rules out).
#[verifier::external_body]
pub(crate) fn plus_seconds(nanos: u64, seconds: u64) -> (r: u64)
    requires
        nanos + seconds * NANOS_PER_SECOND <= u64::MAX,
    ensures
        r == nanos + seconds * NANOS_PER_SECOND,
{
    cosmwasm_std::Timestamp::from_nanos(nanos).plus_seconds(seconds).nanos()
}

/// Relies on `cosmwasm_std::Uint128::checked_add`: the exact sum, or its
/// overflow error (here `None`) when the sum does not fit in 128 bits.
#[verifier::external_body]
pub(crate) fn checked_add_amount(a: u128, b: u128) -> (r: Option<u128>)
    ensures
        a + b <= u128::MAX ==> r == Some((a + b) as u128),
        a + b > u128::MAX ==> r is None,
{
    cosmwasm_std::Uint128::new(a).checked_add(cosmwasm_std::Uint128::new(b)).ok().map(|v| v.u128())
}

/// Relies on `cosmwasm_std::Uint128::checked_sub`: the exact difference, or
/// its overflow error (here `None`) when `b` exceeds `a`.
#[verifier::external_body]
pub(crate) fn checked_sub_amount(a: u128, b: u128) -> (r: Option<u128>)
    ensures
        b <= a ==> r == Some((a - b) as u128),
        b > a ==> r is None,
{
    cosmwasm_std::Uint128::new(a).checked_sub(cosmwasm_std::Uint128::new(b)).ok().map(|v| v.u128())
}

} // verus!
