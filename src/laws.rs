//! Properties of the escrow state machine that relate its operations.
use vstd::prelude::*;

use crate::error::VaultError;
use crate::model::{
    book_spec, booking_at, escrow_balance, finalize_spec, lemma_book_wf, lemma_escrow_push,
    lemma_finalize_wf, lemma_payouts_balance, payouts, reclaim_spec, VaultState,
};
use crate::settlement::{settlement_valid, RECLAIM_TIMEOUT};
use crate::types::{Address, BookingStatus};

verus! {

/// On a configured vault, booking with a positive rate and a positive
/// duration whose product fits in `i128` succeeds: the new booking is
/// `Pending`, its deposit is `rate_per_second * max_duration`, and the
/// balance held in escrow grows by exactly that deposit.
pub proof fn lemma_book_creates_pending(
    s: VaultState,
    user: Address,
    expert: Address,
    rate_per_second: i128,
    max_duration: u64,
    now: u64,
)
    requires
        s.wf(),
        s.config is Some,
        s.bookings.len() < u64::MAX,
        rate_per_second > 0,
        max_duration > 0,
        rate_per_second * max_duration <= i128::MAX,
    ensures
        ({
            let (s2, r) = book_spec(s, user, expert, rate_per_second, max_duration, now);
            &&& s2.wf()
            &&& r == Ok::<u64, VaultError>((s.bookings.len() + 1) as u64)
            &&& booking_at(s2.bookings, (s.bookings.len() + 1) as u64) matches Some(b) && b.status
                == BookingStatus::Pending && b.user == user && b.expert == expert
                && b.total_deposit == rate_per_second * max_duration
            &&& escrow_balance(s2.transfers) == escrow_balance(s.transfers) + rate_per_second
                * max_duration
        }),
{
    assert(rate_per_second * max_duration > 0) by (nonlinear_arith)
        requires
            rate_per_second > 0,
            max_duration > 0,
    ;
    lemma_book_wf(s, user, expert, rate_per_second, max_duration, now);
    let (s2, r) = book_spec(s, user, expert, rate_per_second, max_duration, now);
    lemma_escrow_push(s.transfers, s2.transfers.last());
}

/// Finalizing a pending booking for any duration up to its maximum succeeds:
/// the expert's pay is `rate_per_second * actual_duration`, the refund is the
/// rest of the deposit, both are non-negative, they add up to the deposit
/// exactly, and the escrow balance falls by the whole deposit.
pub proof fn lemma_finalize_reconciles(s: VaultState, caller: Address, id: u64, actual_duration: u64)
    requires
        s.wf(),
        s.config matches Some(c) && caller == c.oracle,
        booking_at(s.bookings, id) matches Some(b) && b.status == BookingStatus::Pending
            && actual_duration <= b.max_duration,
    ensures
        ({
            let b = s.bookings[id - 1];
            let expert_pay = b.rate_per_second * actual_duration;
            let refund = b.total_deposit - expert_pay;
            let (s2, r) = finalize_spec(s, caller, id, actual_duration);
            &&& s2.wf()
            &&& r == Ok::<(), VaultError>(())
            &&& 0 <= expert_pay && 0 <= refund
            &&& expert_pay + refund == b.total_deposit
            &&& s2.transfers == payouts(
                s.transfers,
                b.expert,
                expert_pay as i128,
                b.user,
                refund as i128,
            )
            &&& escrow_balance(s2.transfers) == escrow_balance(s.transfers) - b.total_deposit
        }),
{
    let b = s.bookings[id - 1];
    assert(b.wf());
    assert(0 <= b.rate_per_second * actual_duration <= b.rate_per_second * b.max_duration)
        by (nonlinear_arith)
        requires
            b.rate_per_second > 0,
            actual_duration <= b.max_duration,
    ;
    assert(settlement_valid(b.rate_per_second, b.total_deposit, actual_duration));
    lemma_finalize_wf(s, caller, id, actual_duration);
    let expert_pay = (b.rate_per_second * actual_duration) as i128;
    let refund = (b.total_deposit - expert_pay) as i128;
    lemma_payouts_balance(s.transfers, b.expert, expert_pay, b.user, refund);
}

/// A booking leaves `Pending` at most once. After a successful finalize, a
/// second finalize and a reclaim by the booking's user both fail with
/// `BookingNotPending`; after a successful reclaim, so do a finalize and a
/// second reclaim.
pub proof fn lemma_single_terminal_transition(
    s: VaultState,
    oracle: Address,
    id: u64,
    first_duration: u64,
    second_duration: u64,
    first_now: u64,
    second_now: u64,
)
    requires
        s.wf(),
        s.config matches Some(c) && oracle == c.oracle,
    ensures
        ({
            let (s1, r1) = finalize_spec(s, oracle, id, first_duration);
            r1 is Ok ==> {
                &&& finalize_spec(s1, oracle, id, second_duration).1 == Err::<(), VaultError>(
                    VaultError::BookingNotPending,
                )
                &&& reclaim_spec(s1, s.bookings[id - 1].user, id, second_now).1 == Err::<
                    (),
                    VaultError,
                >(VaultError::BookingNotPending)
            }
        }),
        ({
            let user = s.bookings[id - 1].user;
            let (s1, r1) = reclaim_spec(s, user, id, first_now);
            r1 is Ok ==> {
                &&& finalize_spec(s1, oracle, id, second_duration).1 == Err::<(), VaultError>(
                    VaultError::BookingNotPending,
                )
                &&& reclaim_spec(s1, user, id, second_now).1 == Err::<(), VaultError>(
                    VaultError::BookingNotPending,
                )
            }
        }),
{
}

/// Reclaim is still too early exactly `RECLAIM_TIMEOUT` seconds after a
/// booking was created, and succeeds one second later.
pub proof fn lemma_reclaim_boundary(s: VaultState, id: u64)
    requires
        s.wf(),
        booking_at(s.bookings, id) matches Some(b) && b.status == BookingStatus::Pending
            && b.created_at + RECLAIM_TIMEOUT + 1 <= u64::MAX,
    ensures
        ({
            let b = s.bookings[id - 1];
            &&& reclaim_spec(s, b.user, id, (b.created_at + RECLAIM_TIMEOUT) as u64).1 == Err::<
                (),
                VaultError,
            >(VaultError::ReclaimTooEarly)
            &&& reclaim_spec(s, b.user, id, (b.created_at + RECLAIM_TIMEOUT + 1) as u64).1 == Ok::<
                (),
                VaultError,
            >(())
        }),
{
}

/// Only the booking's own user can reclaim it: any other identity gets
/// `NotAuthorized`, whatever the time.
pub proof fn lemma_reclaim_owner_only(s: VaultState, other: Address, id: u64, now: u64)
    requires
        s.wf(),
        booking_at(s.bookings, id) matches Some(b) && b.user != other,
    ensures
        reclaim_spec(s, other, id, now) == (s, Err::<(), VaultError>(VaultError::NotAuthorized)),
{
}

} // verus!
