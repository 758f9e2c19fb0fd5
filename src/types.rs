use vstd::prelude::*;

verus! {

/// An account identity on the ledger, held as an opaque handle.
#[derive(Clone, Copy, Debug, PartialEq, Eq, Hash, Structural)]
pub struct Address(pub u64);

/// Lifecycle of a booking: `Pending` until exactly one settlement operation
/// moves it to one of the terminal states.
#[derive(Clone, Copy, Debug, PartialEq, Eq, Structural)]
pub enum BookingStatus {
    Pending,
    Complete,
    Reclaimed,
}

/// One escrow record: a deposit paid up front for a session with an expert.
#[derive(Clone, Copy, Debug, PartialEq, Eq, Structural)]
pub struct BookingRecord {
    pub id: u64,
    pub user: Address,
    pub expert: Address,
    pub rate_per_second: i128,
    pub max_duration: u64,
    pub total_deposit: i128,
    pub status: BookingStatus,
    pub created_at: u64,
}

impl BookingRecord {
    /// The numeric invariant of every stored booking.
    pub open spec fn wf(self) -> bool {
        &&& self.rate_per_second > 0
        &&& self.max_duration > 0
        &&& self.total_deposit == self.rate_per_second * self.max_duration
        &&& self.total_deposit > 0
    }
}

/// The identities fixed once at initialization.
#[derive(Clone, Copy, Debug, PartialEq, Eq, Structural)]
pub struct VaultConfig {
    pub admin: Address,
    pub token: Address,
    pub oracle: Address,
}

/// A movement of value that the vault asks the value-transfer service to make.
/// The vault's own custody account is implicit: it is the receiver of
/// `IntoEscrow` and the payer of `OutOfEscrow`.
#[derive(Clone, Copy, Debug, PartialEq, Eq, Structural)]
pub enum Transfer {
    IntoEscrow { from: Address, amount: i128 },
    OutOfEscrow { to: Address, amount: i128 },
}

/// Observable record of each state-changing operation.
#[derive(Clone, Copy, Debug, PartialEq, Eq, Structural)]
pub enum VaultEvent {
    BookingCreated { id: u64, user: Address, expert: Address, deposit: i128 },
    SessionFinalized { id: u64, actual_duration: u64, expert_pay: i128 },
    SessionReclaimed { id: u64, amount: i128 },
}

} // verus!
