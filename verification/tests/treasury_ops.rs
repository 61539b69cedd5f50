use studifi_finance::errors::StudiFiError;
use studifi_finance::service::create_loan;
use studifi_finance::storage::FinanceStorage;
use studifi_finance::treasury::TreasuryEngine;
use studifi_finance::treasury::TreasuryType;

fn fresh_storage() -> FinanceStorage {
    let mut storage = FinanceStorage::new();
    TreasuryEngine::initialize_treasuries(&mut storage, 1_000).unwrap();
    storage
}

#[test]
fn origination_scenario_moves_funds() {
    let mut storage = fresh_storage();
    let loan = create_loan(
        &mut storage,
        "alice".to_string(),
        50_000_00,
        500,
        12,
        0,
        "tuition".to_string(),
        false,
        None,
        Vec::new(),
        2_000,
    )
    .unwrap();
    assert_eq!(loan.original_amount, 50_000_00);
    let pool = storage.get_separate_treasury_config(&TreasuryType::Loan).unwrap();
    assert_eq!(pool.total_funds, 1_000_000_00);
    assert_eq!(pool.available_funds, 750_000_00);
    assert_eq!(pool.reserved_funds, 250_000_00);
}

#[test]
fn allocation_over_ratio_is_refused_and_unchanged() {
    let mut storage = fresh_storage();
    // 700k would leave reserved at 900k of 1M: over the 85% cap.
    let r = TreasuryEngine::allocate_loan_funds(&mut storage, 700_000_00, 3_000);
    assert!(matches!(r, Err(StudiFiError::InsufficientFunds(_))));
    let pool = storage.get_separate_treasury_config(&TreasuryType::Loan).unwrap();
    assert_eq!(pool.available_funds, 800_000_00);
    assert_eq!(pool.reserved_funds, 200_000_00);

    // 700k also breaks the 15% reserve floor; 600k passes both ratios.
    assert!(TreasuryEngine::allocate_loan_funds(&mut storage, 600_000_00, 3_000).is_ok());
    let pool = storage.get_separate_treasury_config(&TreasuryType::Loan).unwrap();
    assert_eq!(pool.available_funds, 200_000_00);
    assert_eq!(pool.reserved_funds, 800_000_00);
}

#[test]
fn allocation_beyond_available_is_refused() {
    let mut storage = fresh_storage();
    let r = TreasuryEngine::check_loan_eligibility(&storage, 900_000_00);
    assert!(matches!(r, Err(StudiFiError::InsufficientFunds(_))));
}

#[test]
fn governance_gate_on_scholarship_allocations() {
    let mut storage = fresh_storage();
    let refused = TreasuryEngine::allocate_treasury_funds(
        &mut storage,
        TreasuryType::Scholarship,
        1_000_00,
        "award".to_string(),
        false,
        4_000,
    );
    assert!(matches!(refused, Err(StudiFiError::Unauthorized(_))));
    let granted = TreasuryEngine::allocate_treasury_funds(
        &mut storage,
        TreasuryType::Scholarship,
        1_000_00,
        "award".to_string(),
        true,
        4_000,
    );
    assert!(granted.is_ok());
    let pool = storage.get_separate_treasury_config(&TreasuryType::Scholarship).unwrap();
    assert_eq!(pool.reserved_funds, 1_000_00);
}

#[test]
fn transfer_requires_governance_and_funds() {
    let mut storage = fresh_storage();
    let refused = TreasuryEngine::transfer_between_treasuries(
        &mut storage,
        TreasuryType::Loan,
        TreasuryType::Protocol,
        1_000_00,
        false,
        5_000,
    );
    assert!(matches!(refused, Err(StudiFiError::Unauthorized(_))));
    let too_much = TreasuryEngine::transfer_between_treasuries(
        &mut storage,
        TreasuryType::Loan,
        TreasuryType::Protocol,
        900_000_00,
        true,
        5_000,
    );
    assert!(matches!(too_much, Err(StudiFiError::InsufficientFunds(_))));
    TreasuryEngine::transfer_between_treasuries(
        &mut storage,
        TreasuryType::Loan,
        TreasuryType::Protocol,
        100_000_00,
        true,
        5_000,
    )
    .unwrap();
    let loan_pool = storage.get_separate_treasury_config(&TreasuryType::Loan).unwrap();
    let protocol_pool = storage.get_separate_treasury_config(&TreasuryType::Protocol).unwrap();
    assert_eq!(loan_pool.total_funds, 900_000_00);
    assert_eq!(loan_pool.available_funds, 700_000_00);
    assert_eq!(protocol_pool.total_funds, 300_000_00);
    assert_eq!(protocol_pool.available_funds, 250_000_00);
}

#[test]
fn conservation_holds_across_an_operation_sequence() {
    let mut storage = fresh_storage();
    TreasuryEngine::allocate_loan_funds(&mut storage, 100_000_00, 1).unwrap();
    TreasuryEngine::add_treasury_funds(
        &mut storage,
        TreasuryType::Loan,
        50_000_00,
        "donation".to_string(),
        2,
    )
    .unwrap();
    TreasuryEngine::return_treasury_funds(&mut storage, TreasuryType::Loan, 40_000_00, 2_000_00, 3)
        .unwrap();
    TreasuryEngine::transfer_between_treasuries(
        &mut storage,
        TreasuryType::Loan,
        TreasuryType::Scholarship,
        10_000_00,
        true,
        4,
    )
    .unwrap();
    for t in [TreasuryType::Loan, TreasuryType::Scholarship, TreasuryType::Protocol] {
        let pool = storage.get_separate_treasury_config(&t).unwrap();
        assert!(pool.available_funds + pool.reserved_funds <= pool.total_funds);
    }
}

#[test]
fn default_write_off_saturates_at_zero() {
    let mut storage = fresh_storage();
    TreasuryEngine::handle_loan_default(&mut storage, 5_000_00).unwrap();
    let config = storage.get_treasury_config();
    assert_eq!(config.reserved_funds, 195_000_00);
    assert_eq!(config.total_funds, 995_000_00);
    TreasuryEngine::handle_loan_default(&mut storage, u64::MAX).unwrap();
    let config = storage.get_treasury_config();
    assert_eq!(config.reserved_funds, 0);
    assert_eq!(config.total_funds, 0);
}

#[test]
fn payment_credit_returns_principal_and_grows_pool() {
    let mut storage = fresh_storage();
    TreasuryEngine::process_payment_to_treasury(&mut storage, 10_000_00, 500_00, 25_00, 6_000)
        .unwrap();
    let pool = storage.get_separate_treasury_config(&TreasuryType::Loan).unwrap();
    assert_eq!(pool.available_funds, 800_000_00 + 10_000_00 + 525_00);
    assert_eq!(pool.reserved_funds, 190_000_00);
    assert_eq!(pool.total_funds, 1_000_525_00);
}
