use vstd::prelude::*;

use crate::error::VaultError;
use crate::settlement::{deposit_valid, reclaim_due_spec, settlement_valid};
use crate::types::{Address, BookingRecord, BookingStatus, Transfer, VaultConfig, VaultEvent};

verus! {

/// The abstract state of the vault: its configuration, the bookings in
/// creation order (the booking with id `k` stands at index `k - 1`), the
/// append-only logs of transfers requested and events emitted, and the
/// balance already held in escrow when those logs began.
pub struct VaultState {
    pub config: Option<VaultConfig>,
    pub opening: int,
    pub bookings: Seq<BookingRecord>,
    pub transfers: Seq<Transfer>,
    pub events: Seq<VaultEvent>,
}

/// What a booking keeps in escrow: its whole deposit while it is pending,
/// nothing once settled.
pub open spec fn held(b: BookingRecord) -> int {
    if b.status == BookingStatus::Pending {
        b.total_deposit as int
    } else {
        0
    }
}

/// The sum of the deposits of all pending bookings.
pub open spec fn pending_total(s: Seq<BookingRecord>) -> int
    decreases s.len(),
{
    if s.len() == 0 {
        0
    } else {
        pending_total(s.drop_last()) + held(s.last())
    }
}

/// How a transfer changes the vault's own balance.
pub open spec fn transfer_delta(t: Transfer) -> int {
    match t {
        Transfer::IntoEscrow { amount, .. } => amount as int,
        Transfer::OutOfEscrow { amount, .. } => -amount,
    }
}

/// The vault's balance after the given transfers, starting from nothing.
pub open spec fn escrow_balance(s: Seq<Transfer>) -> int
    decreases s.len(),
{
    if s.len() == 0 {
        0
    } else {
        escrow_balance(s.drop_last()) + transfer_delta(s.last())
    }
}

/// The booking with the given id, if one was created.
pub open spec fn booking_at(s: Seq<BookingRecord>, id: u64) -> Option<BookingRecord> {
    if 1 <= id <= s.len() {
        Some(s[id - 1])
    } else {
        None
    }
}

/// `b` with its status replaced.
pub open spec fn with_status(b: BookingRecord, status: BookingStatus) -> BookingRecord {
    BookingRecord { status, ..b }
}

/// Whether `party` is the user (or, with `as_expert`, the expert) of `b`.
pub open spec fn involves(b: BookingRecord, party: Address, as_expert: bool) -> bool {
    if as_expert {
        b.expert == party
    } else {
        b.user == party
    }
}

/// The ids of the bookings that involve `party`, in creation order.
pub open spec fn party_booking_ids(s: Seq<BookingRecord>, party: Address, as_expert: bool) -> Seq<
    u64,
>
    decreases s.len(),
{
    if s.len() == 0 {
        Seq::empty()
    } else {
        let prev = party_booking_ids(s.drop_last(), party, as_expert);
        if involves(s.last(), party, as_expert) {
            prev.push(s.last().id)
        } else {
            prev
        }
    }
}

impl VaultState {
    /// Every booking sits at the index its id names and keeps its numeric
    /// invariant; nothing is booked before configuration; and the balance
    /// in escrow, the opening balance plus what the transfers moved, is
    /// exactly what the pending
    /// bookings hold.
    pub open spec fn wf(self) -> bool {
        &&& self.config is None ==> self.bookings.len() == 0
        &&& forall|i: int|
            0 <= i < self.bookings.len() ==> (#[trigger] self.bookings[i]).id == i + 1
                && self.bookings[i].wf()
        &&& self.opening + escrow_balance(self.transfers) == pending_total(self.bookings)
    }

    pub open spec fn empty() -> VaultState {
        VaultState {
            config: None,
            opening: 0,
            bookings: Seq::empty(),
            transfers: Seq::empty(),
            events: Seq::empty(),
        }
    }
}

/// One-time configuration.
pub open spec fn init_spec(s: VaultState, admin: Address, token: Address, oracle: Address) -> (
    VaultState,
    Result<(), VaultError>,
) {
    if s.config is Some {
        (s, Err(VaultError::AlreadyInitialized))
    } else {
        (VaultState { config: Some(VaultConfig { admin, token, oracle }), ..s }, Ok(()))
    }
}

/// Booking creation by `user`, at time `now`.
pub open spec fn book_spec(
    s: VaultState,
    user: Address,
    expert: Address,
    rate_per_second: i128,
    max_duration: u64,
    now: u64,
) -> (VaultState, Result<u64, VaultError>) {
    if !deposit_valid(rate_per_second, max_duration) {
        (s, Err(VaultError::InvalidAmount))
    } else if s.config is None {
        (s, Err(VaultError::NotInitialized))
    } else {
        let id = (s.bookings.len() + 1) as u64;
        let deposit = (rate_per_second * max_duration) as i128;
        let rec = BookingRecord {
            id,
            user,
            expert,
            rate_per_second,
            max_duration,
            total_deposit: deposit,
            status: BookingStatus::Pending,
            created_at: now,
        };
        (
            VaultState {
                config: s.config,
                opening: s.opening,
                bookings: s.bookings.push(rec),
                transfers: s.transfers.push(Transfer::IntoEscrow { from: user, amount: deposit }),
                events: s.events.push(VaultEvent::BookingCreated { id, user, expert, deposit }),
            },
            Ok(id),
        )
    }
}

/// The payouts of a settlement; a zero amount is not sent.
pub open spec fn payouts(
    t: Seq<Transfer>,
    expert: Address,
    expert_pay: i128,
    user: Address,
    refund: i128,
) -> Seq<Transfer> {
    let t1 = if expert_pay > 0 {
        t.push(Transfer::OutOfEscrow { to: expert, amount: expert_pay })
    } else {
        t
    };
    if refund > 0 {
        t1.push(Transfer::OutOfEscrow { to: user, amount: refund })
    } else {
        t1
    }
}

/// Settlement of booking `id` by `caller`, who must be the oracle, for a
/// session of `actual_duration` seconds.
pub open spec fn finalize_spec(s: VaultState, caller: Address, id: u64, actual_duration: u64) -> (
    VaultState,
    Result<(), VaultError>,
) {
    match s.config {
        None => (s, Err(VaultError::NotInitialized)),
        Some(c) => if caller != c.oracle {
            (s, Err(VaultError::NotAuthorized))
        } else {
            match booking_at(s.bookings, id) {
                None => (s, Err(VaultError::BookingNotFound)),
                Some(b) => if b.status != BookingStatus::Pending {
                    (s, Err(VaultError::BookingNotPending))
                } else if !settlement_valid(b.rate_per_second, b.total_deposit, actual_duration) {
                    (s, Err(VaultError::InvalidAmount))
                } else {
                    let pay = (b.rate_per_second * actual_duration) as i128;
                    let refund = (b.total_deposit - pay) as i128;
                    (
                        VaultState {
                            config: s.config,
                            opening: s.opening,
                            bookings: s.bookings.update(
                                id - 1,
                                with_status(b, BookingStatus::Complete),
                            ),
                            transfers: payouts(s.transfers, b.expert, pay, b.user, refund),
                            events: s.events.push(
                                VaultEvent::SessionFinalized { id, actual_duration, expert_pay: pay },
                            ),
                        },
                        Ok(()),
                    )
                },
            }
        },
    }
}

/// Reclaim of booking `id` by `user` at time `now`.
pub open spec fn reclaim_spec(s: VaultState, user: Address, id: u64, now: u64) -> (
    VaultState,
    Result<(), VaultError>,
) {
    match booking_at(s.bookings, id) {
        None => (s, Err(VaultError::BookingNotFound)),
        Some(b) => if b.user != user {
            (s, Err(VaultError::NotAuthorized))
        } else if b.status != BookingStatus::Pending {
            (s, Err(VaultError::BookingNotPending))
        } else if !reclaim_due_spec(b.created_at, now) {
            (s, Err(VaultError::ReclaimTooEarly))
        } else {
            (
                VaultState {
                    config: s.config,
                    opening: s.opening,
                    bookings: s.bookings.update(id - 1, with_status(b, BookingStatus::Reclaimed)),
                    transfers: s.transfers.push(
                        Transfer::OutOfEscrow { to: b.user, amount: b.total_deposit },
                    ),
                    events: s.events.push(
                        VaultEvent::SessionReclaimed { id, amount: b.total_deposit },
                    ),
                },
                Ok(()),
            )
        },
    }
}

pub proof fn lemma_pending_total_push(s: Seq<BookingRecord>, b: BookingRecord)
    ensures
        pending_total(s.push(b)) == pending_total(s) + held(b),
{
    assert(s.push(b).drop_last() =~= s);
}

pub proof fn lemma_pending_total_update(s: Seq<BookingRecord>, i: int, b: BookingRecord)
    requires
        0 <= i < s.len(),
    ensures
        pending_total(s.update(i, b)) == pending_total(s) - held(s[i]) + held(b),
    decreases s.len(),
{
    if i == s.len() - 1 {
        assert(s.update(i, b).drop_last() =~= s.drop_last());
    } else {
        assert(s.update(i, b).drop_last() =~= s.drop_last().update(i, b));
        lemma_pending_total_update(s.drop_last(), i, b);
    }
}

pub proof fn lemma_escrow_push(t: Seq<Transfer>, x: Transfer)
    ensures
        escrow_balance(t.push(x)) == escrow_balance(t) + transfer_delta(x),
{
    assert(t.push(x).drop_last() =~= t);
}

pub proof fn lemma_payouts_balance(
    t: Seq<Transfer>,
    expert: Address,
    expert_pay: i128,
    user: Address,
    refund: i128,
)
    requires
        expert_pay >= 0,
        refund >= 0,
    ensures
        escrow_balance(payouts(t, expert, expert_pay, user, refund)) == escrow_balance(t)
            - expert_pay - refund,
{
    let t1 = if expert_pay > 0 {
        t.push(Transfer::OutOfEscrow { to: expert, amount: expert_pay })
    } else {
        t
    };
    if expert_pay > 0 {
        lemma_escrow_push(t, Transfer::OutOfEscrow { to: expert, amount: expert_pay });
    }
    if refund > 0 {
        lemma_escrow_push(t1, Transfer::OutOfEscrow { to: user, amount: refund });
    }
}

pub proof fn lemma_init_wf(s: VaultState, admin: Address, token: Address, oracle: Address)
    requires
        s.wf(),
    ensures
        init_spec(s, admin, token, oracle).0.wf(),
{
}

pub proof fn lemma_book_wf(
    s: VaultState,
    user: Address,
    expert: Address,
    rate_per_second: i128,
    max_duration: u64,
    now: u64,
)
    requires
        s.wf(),
        s.bookings.len() < u64::MAX,
    ensures
        book_spec(s, user, expert, rate_per_second, max_duration, now).0.wf(),
{
    let (s2, r) = book_spec(s, user, expert, rate_per_second, max_duration, now);
    if r is Ok {
        let rec = s2.bookings.last();
        lemma_pending_total_push(s.bookings, rec);
        lemma_escrow_push(s.transfers, s2.transfers.last());
        assert forall|i: int| 0 <= i < s2.bookings.len() implies (#[trigger] s2.bookings[i]).id == i
            + 1 && s2.bookings[i].wf() by {
            if i < s.bookings.len() {
                assert(s2.bookings[i] == s.bookings[i]);
            } else {
                assert(max_duration > 0) by {
                    if max_duration == 0 {
                        assert(rate_per_second * max_duration == 0) by (nonlinear_arith)
                            requires
                                max_duration == 0,
                        ;
                    }
                }
            }
        }
    }
}

pub proof fn lemma_finalize_wf(s: VaultState, caller: Address, id: u64, actual_duration: u64)
    requires
        s.wf(),
    ensures
        finalize_spec(s, caller, id, actual_duration).0.wf(),
{
    let (s2, r) = finalize_spec(s, caller, id, actual_duration);
    if r is Ok {
        let b = s.bookings[id - 1];
        let pay = (b.rate_per_second * actual_duration) as i128;
        let refund = (b.total_deposit - pay) as i128;
        lemma_pending_total_update(s.bookings, id - 1, with_status(b, BookingStatus::Complete));
        lemma_payouts_balance(s.transfers, b.expert, pay, b.user, refund);
        assert forall|i: int| 0 <= i < s2.bookings.len() implies (#[trigger] s2.bookings[i]).id == i
            + 1 && s2.bookings[i].wf() by {
            assert(s.bookings[i].id == i + 1 && s.bookings[i].wf());
            if i == id - 1 {
                assert(s2.bookings[i] == with_status(b, s2.bookings[i].status));
            } else {
                assert(s2.bookings[i] == s.bookings[i]);
            }
        }
    }
}

pub proof fn lemma_reclaim_wf(s: VaultState, user: Address, id: u64, now: u64)
    requires
        s.wf(),
    ensures
        reclaim_spec(s, user, id, now).0.wf(),
{
    let (s2, r) = reclaim_spec(s, user, id, now);
    if r is Ok {
        let b = s.bookings[id - 1];
        lemma_pending_total_update(s.bookings, id - 1, with_status(b, BookingStatus::Reclaimed));
        lemma_escrow_push(s.transfers, s2.transfers.last());
        assert forall|i: int| 0 <= i < s2.bookings.len() implies (#[trigger] s2.bookings[i]).id == i
            + 1 && s2.bookings[i].wf() by {
            assert(s.bookings[i].id == i + 1 && s.bookings[i].wf());
            if i == id - 1 {
                assert(s2.bookings[i] == with_status(b, s2.bookings[i].status));
            } else {
                assert(s2.bookings[i] == s.bookings[i]);
            }
        }
    }
}

} // verus!
