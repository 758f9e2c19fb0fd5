use vstd::prelude::*;

use crate::error::VaultError;

verus! {

/// Seconds that a booking must stay unsettled before its user may reclaim it.
pub const RECLAIM_TIMEOUT: u64 = 86400;

/// A booking with these terms can be made: the rate is positive and the
/// deposit `rate_per_second * max_duration` is positive and fits in `i128`.
pub open spec fn deposit_valid(rate_per_second: i128, max_duration: u64) -> bool {
    &&& rate_per_second > 0
    &&& rate_per_second * max_duration > 0
    &&& rate_per_second * max_duration <= i128::MAX
}

/// A session of `actual_duration` seconds can be settled against the deposit:
/// its cost is neither negative nor larger than the deposit.
pub open spec fn settlement_valid(rate_per_second: i128, total_deposit: i128, actual_duration: u64) -> bool {
    0 <= rate_per_second * actual_duration <= total_deposit
}

/// The reclaim timeout has strictly passed since `created_at`.
pub open spec fn reclaim_due_spec(created_at: u64, now: u64) -> bool {
    now > created_at + RECLAIM_TIMEOUT
}

/// How a deposit is split when a session is finalized.
#[derive(Clone, Copy, Debug, PartialEq, Eq, Structural)]
pub struct Settlement {
    pub expert_pay: i128,
    pub refund: i128,
}

/// The deposit owed for a booking: `rate_per_second * max_duration`, or
/// `InvalidAmount` when the rate is not positive, the product is not
/// positive, or the product overflows.
pub fn compute_deposit(rate_per_second: i128, max_duration: u64) -> (r: Result<i128, VaultError>)
    ensures
        deposit_valid(rate_per_second, max_duration) ==> r == Ok::<i128, VaultError>(
            (rate_per_second * max_duration) as i128,
        ),
        !deposit_valid(rate_per_second, max_duration) ==> r == Err::<i128, VaultError>(
            VaultError::InvalidAmount,
        ),
{
    if rate_per_second <= 0 {
        return Err(VaultError::InvalidAmount);
    }
    match rate_per_second.checked_mul(max_duration as i128) {
        Some(total) => {
            if total <= 0 {
                Err(VaultError::InvalidAmount)
            } else {
                Ok(total)
            }
        },
        None => {
            assert(rate_per_second * max_duration >= 0) by (nonlinear_arith)
                requires
                    rate_per_second > 0,
                    max_duration >= 0,
            ;
            Err(VaultError::InvalidAmount)
        },
    }
}

/// Splits a deposit for a session of `actual_duration` seconds: the expert is
/// paid `rate_per_second * actual_duration` and the rest is refunded. Fails
/// with `InvalidAmount` when that cost is negative or exceeds the deposit
/// (which covers an overflowing product).
pub fn compute_settlement(rate_per_second: i128, total_deposit: i128, actual_duration: u64) -> (r:
    Result<Settlement, VaultError>)
    ensures
        settlement_valid(rate_per_second, total_deposit, actual_duration) ==> r == Ok::<
            Settlement,
            VaultError,
        >(
            (Settlement {
                expert_pay: (rate_per_second * actual_duration) as i128,
                refund: (total_deposit - rate_per_second * actual_duration) as i128,
            }),
        ),
        !settlement_valid(rate_per_second, total_deposit, actual_duration) ==> r == Err::<
            Settlement,
            VaultError,
        >(VaultError::InvalidAmount),
{
    match rate_per_second.checked_mul(actual_duration as i128) {
        Some(expert_pay) => {
            if expert_pay < 0 || expert_pay > total_deposit {
                Err(VaultError::InvalidAmount)
            } else {
                Ok(Settlement { expert_pay, refund: total_deposit - expert_pay })
            }
        },
        None => {
            if rate_per_second >= 0 {
                assert(rate_per_second * actual_duration >= 0) by (nonlinear_arith)
                    requires
                        rate_per_second >= 0,
                        actual_duration >= 0,
                ;
            } else {
                assert(rate_per_second * actual_duration <= 0) by (nonlinear_arith)
                    requires
                        rate_per_second < 0,
                        actual_duration >= 0,
                ;
            }
            Err(VaultError::InvalidAmount)
        },
    }
}

/// Whether a booking created at `created_at` may be reclaimed at `now`:
/// strictly more than `RECLAIM_TIMEOUT` seconds must have passed.
pub fn reclaim_due(created_at: u64, now: u64) -> (r: bool)
    ensures
        r == reclaim_due_spec(created_at, now),
{
    now > created_at && now - created_at > RECLAIM_TIMEOUT
}

} // verus!
