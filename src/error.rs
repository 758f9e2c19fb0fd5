use vstd::prelude::*;

verus! {

/// Typed failures of the escrow operations.
#[derive(Clone, Copy, Debug, PartialEq, Eq, Structural)]
pub enum VaultError {
    NotInitialized,
    AlreadyInitialized,
    NotAuthorized,
    BookingNotFound,
    BookingNotPending,
    InvalidAmount,
    ReclaimTooEarly,
}

} // verus!
