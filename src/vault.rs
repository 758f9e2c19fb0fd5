use vstd::prelude::*;

use crate::error::VaultError;
use crate::model::{
    book_spec, booking_at, finalize_spec, init_spec, lemma_book_wf, lemma_finalize_wf,
    lemma_init_wf, lemma_reclaim_wf, party_booking_ids, pending_total, reclaim_spec, VaultState,
};
use crate::settlement::{compute_deposit, compute_settlement, reclaim_due};
use crate::types::{Address, BookingRecord, BookingStatus, Transfer, VaultConfig, VaultEvent};

verus! {

/// The booking escrow: configuration, booking ledger, and the logs of
/// transfers the value-transfer service must carry out and of events emitted.
///
/// Each operation either commits all of its changes or, on failure, leaves
/// the vault exactly as it was. The secondary indices by user and by expert
/// are never pruned: they grow with every booking.
pub struct PaymentVaultContract {
    config: Option<VaultConfig>,
    opening: Ghost<int>,
    bookings: Vec<BookingRecord>,
    transfers: Vec<Transfer>,
    events: Vec<VaultEvent>,
}

impl View for PaymentVaultContract {
    type V = VaultState;

    closed spec fn view(&self) -> VaultState {
        VaultState {
            config: self.config,
            opening: self.opening@,
            bookings: self.bookings@,
            transfers: self.transfers@,
            events: self.events@,
        }
    }
}

impl PaymentVaultContract {
    /// A vault that is not yet configured and holds nothing.
    pub fn new() -> (r: Self)
        ensures
            r@ == VaultState::empty(),
            r@.wf(),
    {
        let r = PaymentVaultContract {
            config: None,
            opening: Ghost(0),
            bookings: Vec::new(),
            transfers: Vec::new(),
            events: Vec::new(),
        };
        assert(r@.bookings =~= Seq::empty());
        assert(r@.transfers =~= Seq::empty());
        assert(r@.events =~= Seq::empty());
        r
    }

    /// Rebuilds a vault from a stored configuration and booking ledger, with
    /// empty transfer and event logs. Returns `None` unless the ledger is
    /// well formed: booking `k` at index `k - 1`, every booking with a
    /// positive rate, a positive duration and the deposit their product
    /// gives, and no booking without a configuration.
    pub fn restore(config: Option<VaultConfig>, bookings: Vec<BookingRecord>) -> (r: Option<Self>)
        ensures
            r is Some <==> (config is None ==> bookings@.len() == 0) && forall|i: int|
                0 <= i < bookings@.len() ==> (#[trigger] bookings@[i]).id == i + 1
                    && bookings@[i].wf(),
            r matches Some(v) ==> {
                &&& v@.wf()
                &&& v@.config == config
                &&& v@.bookings == bookings@
                &&& v@.transfers.len() == 0
                &&& v@.events.len() == 0
            },
    {
        if config.is_none() && bookings.len() > 0 {
            return None;
        }
        let mut i: usize = 0;
        while i < bookings.len()
            invariant
                i <= bookings@.len(),
                forall|k: int| 0 <= k < i ==> (#[trigger] bookings@[k]).id == k + 1 && bookings@[k].wf(),
            decreases bookings.len() - i,
        {
            let b = bookings[i];
            if b.id != i as u64 + 1 {
                return None;
            }
            let ok = match compute_deposit(b.rate_per_second, b.max_duration) {
                Ok(d) => d == b.total_deposit,
                Err(_) => false,
            };
            if !ok {
                return None;
            }
            proof {
                assert(b.max_duration > 0) by {
                    if b.max_duration == 0 {
                        assert(b.rate_per_second * b.max_duration == 0) by (nonlinear_arith)
                            requires
                                b.max_duration == 0,
                        ;
                    }
                }
            }
            i = i + 1;
        }
        let r = PaymentVaultContract {
            config,
            opening: Ghost(pending_total(bookings@)),
            bookings,
            transfers: Vec::new(),
            events: Vec::new(),
        };
        assert(r@.transfers =~= Seq::<Transfer>::empty());
        Some(r)
    }

    /// The booking ledger, oldest first.
    pub fn bookings(&self) -> (r: &Vec<BookingRecord>)
        ensures
            r@ == self@.bookings,
    {
        &self.bookings
    }

    /// Stores the administrator, value-transfer service and oracle
    /// identities, once; a second call fails with `AlreadyInitialized`.
    pub fn init(&mut self, admin: Address, token: Address, oracle: Address) -> (r: Result<
        (),
        VaultError,
    >)
        requires
            old(self)@.wf(),
        ensures
            final(self)@.wf(),
            (final(self)@, r) == init_spec(old(self)@, admin, token, oracle),
    {
        proof {
            lemma_init_wf(self@, admin, token, oracle);
        }
        if self.config.is_some() {
            return Err(VaultError::AlreadyInitialized);
        }
        self.config = Some(VaultConfig { admin, token, oracle });
        Ok(())
    }

    /// Books a session for `user`, the authenticated caller, with `expert` at
    /// `rate_per_second` for at most `max_duration` seconds, at time `now`.
    /// The deposit `rate_per_second * max_duration` is moved into escrow and
    /// the new booking's id is returned.
    pub fn book_session(
        &mut self,
        user: Address,
        expert: Address,
        rate_per_second: i128,
        max_duration: u64,
        now: u64,
    ) -> (r: Result<u64, VaultError>)
        requires
            old(self)@.wf(),
            old(self)@.bookings.len() < u64::MAX,
        ensures
            final(self)@.wf(),
            (final(self)@, r) == book_spec(
                old(self)@,
                user,
                expert,
                rate_per_second,
                max_duration,
                now,
            ),
    {
        proof {
            lemma_book_wf(self@, user, expert, rate_per_second, max_duration, now);
        }
        let total_deposit = match compute_deposit(rate_per_second, max_duration) {
            Ok(d) => d,
            Err(e) => return Err(e),
        };
        if self.config.is_none() {
            return Err(VaultError::NotInitialized);
        }
        let id: u64 = self.bookings.len() as u64 + 1;
        let booking = BookingRecord {
            id,
            user,
            expert,
            rate_per_second,
            max_duration,
            total_deposit,
            status: BookingStatus::Pending,
            created_at: now,
        };
        self.bookings.push(booking);
        self.transfers.push(Transfer::IntoEscrow { from: user, amount: total_deposit });
        self.events.push(
            VaultEvent::BookingCreated { id, user, expert, deposit: total_deposit },
        );
        Ok(id)
    }

    /// Index of the booking with the given id, if it exists.
    fn booking_index(&self, booking_id: u64) -> (r: Option<usize>)
        ensures
            r is Some <==> booking_at(self@.bookings, booking_id) is Some,
            r matches Some(i) ==> i < self@.bookings.len() && i == booking_id - 1,
    {
        if booking_id >= 1 && booking_id <= self.bookings.len() as u64 {
            Some((booking_id - 1) as usize)
        } else {
            None
        }
    }

    /// Settles booking `booking_id` for a session of `actual_duration`
    /// seconds. `caller` must be the configured oracle. The expert is paid
    /// `rate_per_second * actual_duration`, the user gets the rest of the
    /// deposit back, and zero amounts are not sent.
    pub fn finalize_session(&mut self, caller: Address, booking_id: u64, actual_duration: u64) -> (r:
        Result<(), VaultError>)
        requires
            old(self)@.wf(),
        ensures
            final(self)@.wf(),
            (final(self)@, r) == finalize_spec(old(self)@, caller, booking_id, actual_duration),
    {
        proof {
            lemma_finalize_wf(self@, caller, booking_id, actual_duration);
        }
        let oracle = match self.config {
            Some(c) => c.oracle,
            None => return Err(VaultError::NotInitialized),
        };
        if caller != oracle {
            return Err(VaultError::NotAuthorized);
        }
        let idx = match self.booking_index(booking_id) {
            Some(i) => i,
            None => return Err(VaultError::BookingNotFound),
        };
        let booking = self.bookings[idx];
        if booking.status != BookingStatus::Pending {
            return Err(VaultError::BookingNotPending);
        }
        let settlement = match compute_settlement(
            booking.rate_per_second,
            booking.total_deposit,
            actual_duration,
        ) {
            Ok(s) => s,
            Err(e) => return Err(e),
        };
        if settlement.expert_pay > 0 {
            self.transfers.push(
                Transfer::OutOfEscrow { to: booking.expert, amount: settlement.expert_pay },
            );
        }
        if settlement.refund > 0 {
            self.transfers.push(Transfer::OutOfEscrow { to: booking.user, amount: settlement.refund });
        }
        self.bookings.set(idx, BookingRecord { status: BookingStatus::Complete, ..booking });
        self.events.push(
            VaultEvent::SessionFinalized {
                id: booking_id,
                actual_duration,
                expert_pay: settlement.expert_pay,
            },
        );
        Ok(())
    }

    /// Returns the whole deposit of booking `booking_id` to its user, who is
    /// the authenticated caller, once the booking has stayed pending for
    /// strictly more than `RECLAIM_TIMEOUT` seconds at time `now`.
    pub fn reclaim_stale_session(&mut self, user: Address, booking_id: u64, now: u64) -> (r: Result<
        (),
        VaultError,
    >)
        requires
            old(self)@.wf(),
        ensures
            final(self)@.wf(),
            (final(self)@, r) == reclaim_spec(old(self)@, user, booking_id, now),
    {
        proof {
            lemma_reclaim_wf(self@, user, booking_id, now);
        }
        let idx = match self.booking_index(booking_id) {
            Some(i) => i,
            None => return Err(VaultError::BookingNotFound),
        };
        let booking = self.bookings[idx];
        if booking.user != user {
            return Err(VaultError::NotAuthorized);
        }
        if booking.status != BookingStatus::Pending {
            return Err(VaultError::BookingNotPending);
        }
        if !reclaim_due(booking.created_at, now) {
            return Err(VaultError::ReclaimTooEarly);
        }
        self.transfers.push(Transfer::OutOfEscrow { to: booking.user, amount: booking.total_deposit });
        self.bookings.set(idx, BookingRecord { status: BookingStatus::Reclaimed, ..booking });
        self.events.push(
            VaultEvent::SessionReclaimed { id: booking_id, amount: booking.total_deposit },
        );
        Ok(())
    }

    /// A snapshot of the booking with the given id, if there is one.
    pub fn get_booking(&self, booking_id: u64) -> (r: Option<BookingRecord>)
        ensures
            r == booking_at(self@.bookings, booking_id),
    {
        match self.booking_index(booking_id) {
            Some(i) => Some(self.bookings[i]),
            None => None,
        }
    }

    /// The ids of the bookings that involve `party`, as user or (with
    /// `as_expert`) as expert, in creation order.
    fn party_bookings(&self, party: Address, as_expert: bool) -> (r: Vec<u64>)
        ensures
            r@ == party_booking_ids(self@.bookings, party, as_expert),
    {
        let mut ids: Vec<u64> = Vec::new();
        let mut i: usize = 0;
        while i < self.bookings.len()
            invariant
                i <= self.bookings.len(),
                ids@ == party_booking_ids(self@.bookings.subrange(0, i as int), party, as_expert),
            decreases self.bookings.len() - i,
        {
            let b = self.bookings[i];
            assert(self@.bookings.subrange(0, i + 1).drop_last() =~= self@.bookings.subrange(
                0,
                i as int,
            ));
            let keep = if as_expert {
                b.expert == party
            } else {
                b.user == party
            };
            if keep {
                ids.push(b.id);
            }
            i = i + 1;
        }
        assert(self@.bookings.subrange(0, i as int) =~= self@.bookings);
        ids
    }

    /// The ids of `user`'s bookings, in creation order.
    pub fn get_user_bookings(&self, user: Address) -> (r: Vec<u64>)
        ensures
            r@ == party_booking_ids(self@.bookings, user, false),
    {
        self.party_bookings(user, false)
    }

    /// The ids of `expert`'s bookings, in creation order.
    pub fn get_expert_bookings(&self, expert: Address) -> (r: Vec<u64>)
        ensures
            r@ == party_booking_ids(self@.bookings, expert, true),
    {
        self.party_bookings(expert, true)
    }

    /// The configuration, once set.
    pub fn config(&self) -> (r: Option<VaultConfig>)
        ensures
            r == self@.config,
    {
        self.config
    }

    /// How many bookings have been created.
    pub fn booking_count(&self) -> (r: usize)
        ensures
            r == self@.bookings.len(),
    {
        self.bookings.len()
    }

    /// Every transfer requested so far, oldest first.
    pub fn transfers(&self) -> (r: &Vec<Transfer>)
        ensures
            r@ == self@.transfers,
    {
        &self.transfers
    }

    /// Every event emitted so far, oldest first.
    pub fn events(&self) -> (r: &Vec<VaultEvent>)
        ensures
            r@ == self@.events,
    {
        &self.events
    }
}

} // verus!
