use payment_vault::{
    BookingRecord, VaultConfig, compute_deposit, compute_settlement, reclaim_due, Address, BookingStatus, PaymentVaultContract,
    Settlement, Transfer, VaultError, VaultEvent, RECLAIM_TIMEOUT,
};

const ADMIN: Address = Address(1);
const TOKEN: Address = Address(2);
const ORACLE: Address = Address(3);
const USER: Address = Address(10);
const OTHER_USER: Address = Address(11);
const EXPERT: Address = Address(20);
const EXPERT2: Address = Address(21);

fn vault() -> PaymentVaultContract {
    let mut v = PaymentVaultContract::new();
    v.init(ADMIN, TOKEN, ORACLE).unwrap();
    v
}

/// Balance of `who` after the vault's transfers, starting from `minted`.
fn balance(v: &PaymentVaultContract, who: Address, minted: i128) -> i128 {
    let mut b = minted;
    for t in v.transfers().iter() {
        match *t {
            Transfer::IntoEscrow { from, amount } if from == who => b -= amount,
            Transfer::OutOfEscrow { to, amount } if to == who => b += amount,
            _ => {}
        }
    }
    b
}

/// What the vault itself holds.
fn vault_balance(v: &PaymentVaultContract) -> i128 {
    let mut b = 0;
    for t in v.transfers().iter() {
        match *t {
            Transfer::IntoEscrow { amount, .. } => b += amount,
            Transfer::OutOfEscrow { amount, .. } => b -= amount,
        }
    }
    b
}

#[test]
fn test_test_initialization() {
    let mut v = PaymentVaultContract::new();
    let res = v.init(ADMIN, TOKEN, ORACLE);
    assert!(res.is_ok());
    let res_duplicate = v.init(ADMIN, TOKEN, ORACLE);
    assert!(res_duplicate.is_err());
    assert_eq!(res_duplicate, Err(VaultError::AlreadyInitialized));
}

#[test]
fn test_partial_duration_scenario() {
    let mut v = vault();
    let booking_id = v.book_session(USER, EXPERT, 10, 100, 0).unwrap();
    assert_eq!(balance(&v, USER, 10_000), 9_000);
    assert_eq!(vault_balance(&v), 1_000);

    v.finalize_session(ORACLE, booking_id, 50).unwrap();
    assert_eq!(balance(&v, EXPERT, 0), 500);
    assert_eq!(balance(&v, USER, 10_000), 9_500);
    assert_eq!(vault_balance(&v), 0);
}

#[test]
fn test_full_duration_no_refund() {
    let mut v = vault();
    let booking_id = v.book_session(USER, EXPERT, 10, 100, 0).unwrap();
    v.finalize_session(ORACLE, booking_id, 100).unwrap();
    assert_eq!(balance(&v, EXPERT, 0), 1_000);
    assert_eq!(balance(&v, USER, 10_000), 9_000);
    assert_eq!(vault_balance(&v), 0);
    // no zero-value refund is sent
    assert_eq!(v.transfers().len(), 2);
}

#[test]
fn test_double_finalization_protection() {
    let mut v = vault();
    let booking_id = v.book_session(USER, EXPERT, 10, 100, 0).unwrap();
    let result = v.finalize_session(ORACLE, booking_id, 50);
    assert!(result.is_ok());
    let result_duplicate = v.finalize_session(ORACLE, booking_id, 50);
    assert!(result_duplicate.is_err());
    assert_eq!(result_duplicate, Err(VaultError::BookingNotPending));
}

#[test]
fn test_oracle_authorization_enforcement() {
    let mut v = vault();
    let booking_id = v.book_session(USER, EXPERT, 10, 100, 0).unwrap();
    let result = v.finalize_session(USER, booking_id, 50);
    assert!(result.is_err());
    assert_eq!(result, Err(VaultError::NotAuthorized));
    v.finalize_session(ORACLE, booking_id, 50).unwrap();
    assert_eq!(balance(&v, EXPERT, 0), 500);
}

#[test]
fn test_zero_duration_finalization() {
    let mut v = vault();
    let booking_id = v.book_session(USER, EXPERT, 10, 100, 0).unwrap();
    v.finalize_session(ORACLE, booking_id, 0).unwrap();
    assert_eq!(balance(&v, EXPERT, 0), 0);
    assert_eq!(balance(&v, USER, 10_000), 10_000);
    assert_eq!(vault_balance(&v), 0);
    // no zero-value payout is sent
    assert_eq!(v.transfers().len(), 2);
}

#[test]
fn test_booking_not_found() {
    let mut v = vault();
    let result = v.finalize_session(ORACLE, 999, 50);
    assert!(result.is_err());
    assert_eq!(result, Err(VaultError::BookingNotFound));
}

#[test]
fn test_book_session_balance_transfer() {
    let mut v = vault();
    let initial_balance = 5_000_i128;
    let rate_per_second = 5_i128;
    let max_duration = 200_u64;
    let expected_deposit = rate_per_second * (max_duration as i128);

    assert_eq!(balance(&v, USER, initial_balance), initial_balance);
    assert_eq!(vault_balance(&v), 0);

    let booking_id = v.book_session(USER, EXPERT, rate_per_second, max_duration, 0).unwrap();
    assert_eq!(balance(&v, USER, initial_balance), initial_balance - expected_deposit);
    assert_eq!(vault_balance(&v), expected_deposit);
    assert_eq!(booking_id, 1);

    let booking_id_2 = v.book_session(USER, EXPERT, rate_per_second, max_duration, 0).unwrap();
    assert_eq!(booking_id_2, 2);
    assert_ne!(booking_id, booking_id_2);
}

#[test]
fn test_get_user_and_expert_bookings() {
    let mut v = vault();
    let booking_id_1 = v.book_session(USER, EXPERT, 10, 100, 0).unwrap();
    let booking_id_2 = v.book_session(USER, EXPERT2, 10, 100, 0).unwrap();

    let user_bookings = v.get_user_bookings(USER);
    assert_eq!(user_bookings.len(), 2);
    assert_eq!(user_bookings[0], booking_id_1);
    assert_eq!(user_bookings[1], booking_id_2);

    let expert1_bookings = v.get_expert_bookings(EXPERT);
    assert_eq!(expert1_bookings.len(), 1);
    assert_eq!(expert1_bookings[0], booking_id_1);

    let expert2_bookings = v.get_expert_bookings(EXPERT2);
    assert_eq!(expert2_bookings.len(), 1);
    assert_eq!(expert2_bookings[0], booking_id_2);

    let booking_1 = v.get_booking(booking_id_1);
    assert!(booking_1.is_some());
    let booking_1 = booking_1.unwrap();
    assert_eq!(booking_1.id, booking_id_1);
    assert_eq!(booking_1.user, USER);
    assert_eq!(booking_1.expert, EXPERT);
    assert_eq!(booking_1.rate_per_second, 10);

    let non_existent = v.get_booking(999);
    assert!(non_existent.is_none());
}

#[test]
fn test_reclaim_stale_session_too_early() {
    let mut v = vault();
    let booking_id = v.book_session(USER, EXPERT, 10, 100, 0).unwrap();
    let result = v.reclaim_stale_session(USER, booking_id, 0);
    assert!(result.is_err());
    assert_eq!(result, Err(VaultError::ReclaimTooEarly));
    assert_eq!(vault_balance(&v), 1_000);
    assert_eq!(balance(&v, USER, 10_000), 9_000);
}

#[test]
fn test_reclaim_stale_session_success() {
    let mut v = vault();
    let booking_id = v.book_session(USER, EXPERT, 10, 100, 0).unwrap();
    let result = v.reclaim_stale_session(USER, booking_id, 90_000);
    assert!(result.is_ok());
    assert_eq!(vault_balance(&v), 0);
    assert_eq!(balance(&v, USER, 10_000), 10_000);
    assert_eq!(balance(&v, EXPERT, 0), 0);
}

#[test]
fn test_reclaim_stale_session_wrong_user() {
    let mut v = vault();
    let booking_id = v.book_session(USER, EXPERT, 10, 100, 0).unwrap();
    let result = v.reclaim_stale_session(OTHER_USER, booking_id, 90_000);
    assert!(result.is_err());
    assert_eq!(result, Err(VaultError::NotAuthorized));
    assert_eq!(vault_balance(&v), 1_000);
}

#[test]
fn test_reclaim_already_finalized() {
    let mut v = vault();
    let booking_id = v.book_session(USER, EXPERT, 10, 100, 0).unwrap();
    v.finalize_session(ORACLE, booking_id, 50).unwrap();
    let result = v.reclaim_stale_session(USER, booking_id, 90_000);
    assert!(result.is_err());
    assert_eq!(result, Err(VaultError::BookingNotPending));
}

#[test]
fn book_creates_pending_record_and_escrows_deposit() {
    let mut v = vault();
    let id = v.book_session(USER, EXPERT, 7, 13, 42).unwrap();
    let b = v.get_booking(id).unwrap();
    assert_eq!(b.status, BookingStatus::Pending);
    assert_eq!(b.total_deposit, 91);
    assert_eq!(b.max_duration, 13);
    assert_eq!(b.created_at, 42);
    assert_eq!(vault_balance(&v), 91);
    assert_eq!(v.transfers()[0], Transfer::IntoEscrow { from: USER, amount: 91 });
    assert_eq!(
        v.events()[0],
        VaultEvent::BookingCreated { id, user: USER, expert: EXPERT, deposit: 91 }
    );
}

#[test]
fn settlement_reconciles_for_every_duration() {
    let rate = 3_i128;
    let max = 40_u64;
    let deposit = compute_deposit(rate, max).unwrap();
    for d in 0..=max {
        let s = compute_settlement(rate, deposit, d).unwrap();
        assert_eq!(s.expert_pay, rate * d as i128);
        assert!(s.expert_pay >= 0 && s.refund >= 0);
        assert_eq!(s.expert_pay + s.refund, deposit);
    }
    assert_eq!(compute_settlement(rate, deposit, max + 1), Err(VaultError::InvalidAmount));
}

#[test]
fn finalize_then_reclaim_and_reclaim_then_finalize_fail_not_pending() {
    let mut v = vault();
    let a = v.book_session(USER, EXPERT, 10, 100, 0).unwrap();
    let b = v.book_session(USER, EXPERT, 10, 100, 0).unwrap();
    v.finalize_session(ORACLE, a, 20).unwrap();
    assert_eq!(v.reclaim_stale_session(USER, a, 100_000), Err(VaultError::BookingNotPending));
    v.reclaim_stale_session(USER, b, 100_000).unwrap();
    assert_eq!(v.finalize_session(ORACLE, b, 20), Err(VaultError::BookingNotPending));
    assert_eq!(v.reclaim_stale_session(USER, b, 100_000), Err(VaultError::BookingNotPending));
    assert_eq!(v.get_booking(a).unwrap().status, BookingStatus::Complete);
    assert_eq!(v.get_booking(b).unwrap().status, BookingStatus::Reclaimed);
}

#[test]
fn reclaim_boundary_is_strict() {
    let mut v = vault();
    let created = 1_000_u64;
    let id = v.book_session(USER, EXPERT, 10, 100, created).unwrap();
    assert_eq!(
        v.reclaim_stale_session(USER, id, created + RECLAIM_TIMEOUT),
        Err(VaultError::ReclaimTooEarly)
    );
    assert_eq!(v.reclaim_stale_session(USER, id, created + RECLAIM_TIMEOUT + 1), Ok(()));
    assert!(!reclaim_due(created, created + 86_400));
    assert!(reclaim_due(created, created + 86_401));
    assert!(!reclaim_due(u64::MAX - 10, u64::MAX));
}

#[test]
fn scenario_a_partial_settlement() {
    let mut v = vault();
    let id = v.book_session(USER, EXPERT, 10, 100, 0).unwrap();
    assert_eq!(v.get_booking(id).unwrap().total_deposit, 1000);
    v.finalize_session(ORACLE, id, 50).unwrap();
    assert_eq!(balance(&v, EXPERT, 0), 500);
    assert_eq!(balance(&v, USER, 1000), 500);
    assert_eq!(
        v.events()[1],
        VaultEvent::SessionFinalized { id, actual_duration: 50, expert_pay: 500 }
    );
}

#[test]
fn scenario_b_zero_duration_refunds_all() {
    let mut v = vault();
    let id = v.book_session(USER, EXPERT, 10, 100, 0).unwrap();
    v.finalize_session(ORACLE, id, 0).unwrap();
    assert_eq!(v.transfers().len(), 2);
    assert_eq!(v.transfers()[1], Transfer::OutOfEscrow { to: USER, amount: 1000 });
}

#[test]
fn scenario_c_full_duration_pays_all() {
    let mut v = vault();
    let id = v.book_session(USER, EXPERT, 10, 100, 0).unwrap();
    v.finalize_session(ORACLE, id, 100).unwrap();
    assert_eq!(v.transfers().len(), 2);
    assert_eq!(v.transfers()[1], Transfer::OutOfEscrow { to: EXPERT, amount: 1000 });
}

#[test]
fn scenario_d_stale_reclaim_by_owner_only() {
    let mut v = vault();
    let id = v.book_session(USER, EXPERT, 10, 100, 0).unwrap();
    let later = 24 * 3600 + 1;
    assert_eq!(v.reclaim_stale_session(EXPERT, id, later), Err(VaultError::NotAuthorized));
    assert_eq!(v.reclaim_stale_session(ORACLE, id, later), Err(VaultError::NotAuthorized));
    assert_eq!(v.reclaim_stale_session(USER, id, later), Ok(()));
    assert_eq!(v.transfers()[1], Transfer::OutOfEscrow { to: USER, amount: 1000 });
    assert_eq!(v.events()[1], VaultEvent::SessionReclaimed { id, amount: 1000 });
}

#[test]
fn invalid_amounts_are_rejected_without_change() {
    let mut v = vault();
    assert_eq!(v.book_session(USER, EXPERT, 0, 100, 0), Err(VaultError::InvalidAmount));
    assert_eq!(v.book_session(USER, EXPERT, -5, 100, 0), Err(VaultError::InvalidAmount));
    assert_eq!(v.book_session(USER, EXPERT, 10, 0, 0), Err(VaultError::InvalidAmount));
    assert_eq!(v.book_session(USER, EXPERT, i128::MAX, 2, 0), Err(VaultError::InvalidAmount));
    assert_eq!(v.booking_count(), 0);
    assert!(v.transfers().is_empty());
    let id = v.book_session(USER, EXPERT, 10, 100, 0).unwrap();
    assert_eq!(v.finalize_session(ORACLE, id, 101), Err(VaultError::InvalidAmount));
    assert_eq!(v.finalize_session(ORACLE, id, u64::MAX), Err(VaultError::InvalidAmount));
    assert_eq!(v.get_booking(id).unwrap().status, BookingStatus::Pending);
}

#[test]
fn operations_before_init_fail() {
    let mut v = PaymentVaultContract::new();
    assert_eq!(v.book_session(USER, EXPERT, 10, 100, 0), Err(VaultError::NotInitialized));
    assert_eq!(v.finalize_session(ORACLE, 1, 0), Err(VaultError::NotInitialized));
    assert_eq!(v.reclaim_stale_session(USER, 1, 100_000), Err(VaultError::BookingNotFound));
    assert_eq!(v.config(), None);
}

#[test]
fn deposit_and_settlement_values() {
    assert_eq!(compute_deposit(10, 100), Ok(1000));
    assert_eq!(compute_deposit(i128::MAX, 1), Ok(i128::MAX));
    assert_eq!(
        compute_settlement(10, 1000, 50),
        Ok(Settlement { expert_pay: 500, refund: 500 })
    );
    assert_eq!(compute_settlement(-1, 1000, 5), Err(VaultError::InvalidAmount));
}

#[test]
fn restore_round_trips_a_ledger_and_refuses_malformed_ones() {
    let mut v = vault();
    let a = v.book_session(USER, EXPERT, 10, 100, 0).unwrap();
    v.book_session(USER, EXPERT2, 3, 7, 5).unwrap();
    v.finalize_session(ORACLE, a, 30).unwrap();
    let ledger: Vec<BookingRecord> = v.bookings().clone();

    let mut r = PaymentVaultContract::restore(v.config(), ledger.clone()).unwrap();
    assert_eq!(r.bookings(), &ledger);
    assert!(r.transfers().is_empty() && r.events().is_empty());
    assert_eq!(r.finalize_session(ORACLE, a, 30), Err(VaultError::BookingNotPending));
    assert_eq!(r.book_session(USER, EXPERT, 1, 1, 9), Ok(3));

    assert!(PaymentVaultContract::restore(None, ledger.clone()).is_none());
    let config = Some(VaultConfig { admin: ADMIN, token: TOKEN, oracle: ORACLE });
    let mut bad_id = ledger.clone();
    bad_id[1].id = 5;
    assert!(PaymentVaultContract::restore(config, bad_id).is_none());
    let mut bad_deposit = ledger.clone();
    bad_deposit[0].total_deposit = 999;
    assert!(PaymentVaultContract::restore(config, bad_deposit).is_none());
    let mut bad_rate = ledger;
    bad_rate[1].rate_per_second = 0;
    bad_rate[1].total_deposit = 0;
    assert!(PaymentVaultContract::restore(config, bad_rate).is_none());
}
