use studifi_finance::errors::StudiFiError;
use studifi_finance::loans::LoanStatus;
use studifi_finance::loans::PaymentMethod;
use studifi_finance::loans::PaymentType;
use studifi_finance::service::create_loan;
use studifi_finance::service::get_early_payoff_info;
use studifi_finance::service::get_loan;
use studifi_finance::service::get_student_loan_stats;
use studifi_finance::service::make_early_payoff;
use studifi_finance::service::process_payment;
use studifi_finance::storage::FinanceStorage;
use studifi_finance::treasury::TreasuryEngine;
use studifi_finance::treasury::TreasuryType;

fn fresh_storage() -> FinanceStorage {
    let mut storage = FinanceStorage::new();
    TreasuryEngine::initialize_treasuries(&mut storage, 0).unwrap();
    storage
}

fn originate(storage: &mut FinanceStorage, amount: u64, rate_bps: u64) -> String {
    let loan = create_loan(
        storage,
        "alice".to_string(),
        amount,
        rate_bps,
        12,
        0,
        "tuition".to_string(),
        false,
        Some("bob".to_string()),
        Vec::new(),
        1_000,
    )
    .unwrap();
    loan.id
}

#[test]
fn create_loan_validates_inputs() {
    let mut storage = fresh_storage();
    let zero = create_loan(
        &mut storage,
        "alice".to_string(),
        0,
        500,
        12,
        0,
        "t".to_string(),
        false,
        None,
        Vec::new(),
        1,
    );
    assert!(matches!(zero, Err(StudiFiError::InvalidInput(_))));
    let bad_term = create_loan(
        &mut storage,
        "alice".to_string(),
        10_000_00,
        500,
        3,
        0,
        "t".to_string(),
        false,
        None,
        Vec::new(),
        1,
    );
    assert!(matches!(bad_term, Err(StudiFiError::InvalidInput(_))));
    let bad_rate = create_loan(
        &mut storage,
        "alice".to_string(),
        10_000_00,
        9_000,
        12,
        0,
        "t".to_string(),
        false,
        None,
        Vec::new(),
        1,
    );
    assert!(matches!(bad_rate, Err(StudiFiError::InvalidInput(_))));
    let too_large = create_loan(
        &mut storage,
        "alice".to_string(),
        900_000_00,
        500,
        12,
        0,
        "t".to_string(),
        false,
        None,
        Vec::new(),
        1,
    );
    assert!(matches!(too_large, Err(StudiFiError::InsufficientFunds(_))));
}

#[test]
fn payment_flow_updates_loan_and_treasury() {
    let mut storage = fresh_storage();
    let id = originate(&mut storage, 100_000, 0);
    let payment =
        process_payment(&mut storage, id.clone(), 8_334, PaymentMethod::ICP, "alice".to_string(), 2_000)
            .unwrap();
    assert_eq!(payment.principal_portion, 8_334);
    assert_eq!(payment.interest_portion, 0);
    assert_eq!(payment.payment_type, PaymentType::Regular);
    let loan = get_loan(&storage, &id).unwrap();
    assert_eq!(loan.current_balance, 100_000 - 8_334);
    assert_eq!(loan.payments_made, 1);
}

#[test]
fn payment_authorization_and_lookup_errors() {
    let mut storage = fresh_storage();
    let id = originate(&mut storage, 100_000, 0);
    let missing = process_payment(
        &mut storage,
        "LOAN-99999999".to_string(),
        100,
        PaymentMethod::ICP,
        "alice".to_string(),
        2_000,
    );
    assert!(matches!(missing, Err(StudiFiError::NotFound(_))));
    let stranger =
        process_payment(&mut storage, id.clone(), 100, PaymentMethod::ICP, "mallory".to_string(), 2_000);
    assert!(matches!(stranger, Err(StudiFiError::Unauthorized(_))));
    let cosigner =
        process_payment(&mut storage, id, 100, PaymentMethod::ICP, "bob".to_string(), 2_000);
    assert!(cosigner.is_ok());
}

#[test]
fn full_schedule_pays_the_loan_off() {
    let mut storage = fresh_storage();
    let id = originate(&mut storage, 100_000, 0);
    for k in 0..12 {
        process_payment(
            &mut storage,
            id.clone(),
            8_334,
            PaymentMethod::ICP,
            "alice".to_string(),
            2_000 + k,
        )
        .unwrap();
    }
    let loan = get_loan(&storage, &id).unwrap();
    assert_eq!(loan.current_balance, 0);
    assert_eq!(loan.status, LoanStatus::PaidOff);
    let after = process_payment(&mut storage, id, 1, PaymentMethod::ICP, "alice".to_string(), 9_999);
    assert!(matches!(after, Err(StudiFiError::InvalidInput(_))));
}

#[test]
fn early_payoff_scenario_settles_with_penalty() {
    let mut storage = fresh_storage();
    let id = originate(&mut storage, 10_000_00, 0);
    let info = get_early_payoff_info(&storage, &id).unwrap();
    assert_eq!(info.total_payoff_amount, 10_200_00);
    let payment =
        make_early_payoff(&mut storage, id.clone(), PaymentMethod::ICP, "alice".to_string(), 3_000)
            .unwrap();
    assert_eq!(payment.amount, 10_200_00);
    assert_eq!(payment.late_fee, 200_00);
    assert_eq!(payment.payment_type, PaymentType::FullPayoff);
    let loan = get_loan(&storage, &id).unwrap();
    assert_eq!(loan.current_balance, 0);
    let pool = storage.get_separate_treasury_config(&TreasuryType::Loan).unwrap();
    // the principal came back and the penalty grew the pool
    assert_eq!(pool.total_funds, 1_000_200_00);
}

#[test]
fn student_stats_follow_the_history() {
    let mut storage = fresh_storage();
    let id = originate(&mut storage, 100_000, 0);
    process_payment(&mut storage, id, 8_334, PaymentMethod::ICP, "alice".to_string(), 2_000)
        .unwrap();
    let stats = get_student_loan_stats(&storage, "alice");
    assert_eq!(stats.total_borrowed, 100_000);
    assert_eq!(stats.current_balance, 100_000 - 8_334);
    assert_eq!(stats.total_paid, 8_334);
    assert_eq!(stats.active_loans, 1);
    assert_eq!(stats.on_time_payments, 1);
    assert_eq!(stats.credit_score_impact, 2);
}
