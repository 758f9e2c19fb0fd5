//! Escrow and settlement ledger for time-metered consultations.
//!
//! A user pre-pays a deposit for a session with an expert; a trusted oracle
//! later reports the elapsed time and the deposit is split between the
//! expert's pay and the user's refund. A user whose booking was never settled
//! may take the whole deposit back once a fixed timeout has passed.
//!
//! The escrow is `PaymentVaultContract`; its operations are proved to follow
//! the state machine of `model`, whose laws stand in `laws`. Beside it,
//! `IdentityRegistryContract` keeps the whitelist and ban list of experts.
mod error;
mod laws;
mod model;
mod registry;
mod settlement;
mod types;
mod vault;

pub use error::VaultError;
pub use laws::{
    lemma_book_creates_pending, lemma_finalize_reconciles, lemma_reclaim_boundary,
    lemma_reclaim_owner_only, lemma_single_terminal_transition,
};
pub use model::{
    book_spec, booking_at, escrow_balance, finalize_spec, init_spec, party_booking_ids,
    pending_total, reclaim_spec, VaultState,
};
pub use registry::{
    ExpertProfile, ExpertRecord, ExpertStatus, IdentityRegistryContract, RegistryError,
    RegistryEvent, RegistryState, MAX_BATCH, MAX_URI_LEN,
};
pub use settlement::{
    compute_deposit, compute_settlement, deposit_valid, reclaim_due, reclaim_due_spec,
    settlement_valid, Settlement, RECLAIM_TIMEOUT,
};
pub use types::{Address, BookingRecord, BookingStatus, Transfer, VaultConfig, VaultEvent};
pub use vault::PaymentVaultContract;
