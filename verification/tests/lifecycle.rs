use studifi_finance::automation::AutomationEngine;
use studifi_finance::loans::Loan;
use studifi_finance::loans::LoanStatus;
use studifi_finance::loans::PaymentType;
use studifi_finance::storage::FinanceStorage;
use studifi_finance::treasury::TreasuryEngine;

const DAY: u64 = 86_400_000_000_000;
const MONTH: u64 = 30 * DAY;

fn sample_loan(status: LoanStatus, balance: u64, first_due: u64) -> Loan {
    let mut loan = Loan::new(
        "LOAN-00000001".to_string(),
        "alice".to_string(),
        100_000,
        0,
        12,
        8_334,
        0,
        1_000,
        "tuition".to_string(),
        false,
        None,
        Vec::new(),
        first_due,
    );
    loan.status = status;
    loan.current_balance = balance;
    loan
}

#[test]
fn status_advances_with_time_and_never_back() {
    let loan = sample_loan(LoanStatus::Active, 100_000, 10 * DAY);
    let ranks = [
        AutomationEngine::determine_loan_status(&loan, 0),
        AutomationEngine::determine_loan_status(&loan, 10 * DAY),
        AutomationEngine::determine_loan_status(&loan, 15 * DAY),
        AutomationEngine::determine_loan_status(&loan, 10 * DAY + 91 * DAY + 1),
    ];
    assert_eq!(ranks[0], LoanStatus::InGracePeriod);
    assert_eq!(ranks[1], LoanStatus::Active);
    assert_eq!(ranks[2], LoanStatus::Late);
    assert_eq!(ranks[3], LoanStatus::Default);
}

#[test]
fn paid_off_once_balance_reaches_zero() {
    let loan = sample_loan(LoanStatus::Active, 0, 10 * DAY);
    assert_eq!(AutomationEngine::determine_loan_status(&loan, 20 * DAY), LoanStatus::PaidOff);
}

#[test]
fn default_scenario_writes_balance_off_the_treasury() {
    let mut storage = FinanceStorage::new();
    TreasuryEngine::initialize_treasuries(&mut storage, 0).unwrap();
    let loan = sample_loan(LoanStatus::Late, 5_000_00, DAY);
    storage.insert_loan("LOAN-00000001".to_string(), loan);
    let now = DAY + 91 * DAY;
    AutomationEngine::update_loan_statuses(&mut storage, now).unwrap();
    let updated = storage.get_loan("LOAN-00000001").unwrap();
    assert_eq!(updated.status, LoanStatus::Default);
    let config = storage.get_treasury_config();
    assert_eq!(config.reserved_funds, 200_000_00 - 5_000_00);
    assert_eq!(config.total_funds, 1_000_000_00 - 5_000_00);
}

#[test]
fn late_fee_is_idempotent_within_a_period() {
    let mut storage = FinanceStorage::new();
    let loan = sample_loan(LoanStatus::Active, 100_000, DAY);
    storage.insert_loan("LOAN-00000001".to_string(), loan.clone());
    let now = DAY + 10 * DAY;
    AutomationEngine::apply_late_fees(&mut storage, &loan, now).unwrap();
    AutomationEngine::apply_late_fees(&mut storage, &loan, now + DAY).unwrap();
    let fees: Vec<_> = storage
        .get_payments_by_loan("LOAN-00000001")
        .into_iter()
        .filter(|p| p.payment_type == PaymentType::LateFee)
        .collect();
    assert_eq!(fees.len(), 1);
    // five percent of the monthly payment is under the floor, so the minimum applies
    assert_eq!(fees[0].late_fee, 25_00);
}

#[test]
fn zero_rate_schedule_drives_balance_to_zero() {
    let mut loan = sample_loan(LoanStatus::Active, 100_000, 0);
    for _ in 0..12 {
        let b = AutomationEngine::calculate_payment_breakdown(&loan, 8_334);
        loan.current_balance = b.remaining_balance;
    }
    assert_eq!(loan.current_balance, 0);
}

#[test]
fn payment_breakdown_splits_interest_first() {
    let mut loan = sample_loan(LoanStatus::Active, 5_000_000, 0);
    loan.interest_rate_bps = 500;
    let b = AutomationEngine::calculate_payment_breakdown(&loan, 100_000);
    assert_eq!(b.interest_portion, 20_833);
    assert_eq!(b.principal_portion, 79_167);
    assert_eq!(b.remaining_balance, 5_000_000 - 79_167);
    assert_eq!(b.principal_portion + b.interest_portion, b.total_amount);
}

#[test]
fn early_payoff_scenario_charges_two_percent() {
    let loan = sample_loan(LoanStatus::Active, 10_000_00, 0);
    let info = AutomationEngine::check_early_payoff_eligibility(&loan);
    assert_eq!(info.prepayment_penalty, 200_00);
    assert_eq!(info.total_payoff_amount, 10_200_00);
    assert!(info.is_eligible);
}

#[test]
fn early_payoff_penalty_waived_by_tag() {
    let mut loan = sample_loan(LoanStatus::Active, 10_000_00, 0);
    loan.special_conditions = vec!["no_prepayment_penalty".to_string()];
    let info = AutomationEngine::check_early_payoff_eligibility(&loan);
    assert_eq!(info.prepayment_penalty, 0);
    assert_eq!(info.total_payoff_amount, 10_000_00);
}

#[test]
fn scheduler_run_sweeps_escalates_and_accrues() {
    let mut storage = FinanceStorage::new();
    TreasuryEngine::initialize_treasuries(&mut storage, 0).unwrap();
    let mut overdue = sample_loan(LoanStatus::Active, 100_000, DAY);
    overdue.interest_rate_bps = 0;
    storage.insert_loan("LOAN-00000001".to_string(), overdue);
    let now = DAY + 45 * DAY;
    let notices = AutomationEngine::run_scheduled_tasks(&mut storage, now).unwrap();
    // forty-five days overdue: the loan turns late and earns an urgent notice
    let updated = storage.get_loan("LOAN-00000001").unwrap();
    assert_eq!(updated.status, LoanStatus::Late);
    assert_eq!(notices.len(), 1);
    assert_eq!(notices[0].loan_id, "LOAN-00000001");
}

#[test]
fn interest_accrual_compounds_daily() {
    let mut storage = FinanceStorage::new();
    let mut loan = sample_loan(LoanStatus::Active, 3_650_000, 100 * MONTH);
    loan.interest_rate_bps = 1_000;
    storage.insert_loan("LOAN-00000001".to_string(), loan);
    AutomationEngine::update_interest_accruals(&mut storage, DAY).unwrap();
    let updated = storage.get_loan("LOAN-00000001").unwrap();
    // one day at ten percent a year on 3,650,000 cents is exactly 1,000 cents
    assert_eq!(updated.current_balance, 3_651_000);
}
