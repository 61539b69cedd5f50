use studifi_finance::auth::get_role_permissions;
use studifi_finance::auth::role_has_permission;
use studifi_finance::auth::Permission;
use studifi_finance::auth::Role;
use studifi_finance::common::PaginationParams;
use studifi_finance::credit::EvidenceImpact;
use studifi_finance::credit::RiskLevel;
use studifi_finance::errors::StudiFiError;
use studifi_finance::governance::StakeholderType;
use studifi_finance::governance::VotingEngine;
use studifi_finance::health::calculate_health_score;
use studifi_finance::health::determine_health_status;
use studifi_finance::health::TreasuryHealthStatus;
use studifi_finance::identity::VerifiableCredentialService;
use studifi_finance::issuer::CredentialIssuanceRecord;
use studifi_finance::storage::FinanceStorage;
use studifi_finance::treasury::TreasuryEngine;
use studifi_finance::treasury::TreasuryType;
use studifi_finance::utils::paginate;

#[test]
fn permissions_follow_the_role_table() {
    assert!(role_has_permission(&Role::Student, &Permission::MakePayment));
    assert!(!role_has_permission(&Role::Student, &Permission::ManageSystem));
    assert!(role_has_permission(&Role::SystemAdmin, &Permission::ManageSystem));
    let donor = get_role_permissions(&Role::Donor);
    assert_eq!(
        donor,
        vec![Permission::ViewOwnData, Permission::VoteOnProposals, Permission::CreateProposals]
    );
}

#[test]
fn quadratic_voting_power_is_the_integer_square_root() {
    assert_eq!(VotingEngine::calculate_quadratic_voting_power(0), 0);
    assert_eq!(VotingEngine::calculate_quadratic_voting_power(1), 1);
    assert_eq!(VotingEngine::calculate_quadratic_voting_power(99), 9);
    assert_eq!(VotingEngine::calculate_quadratic_voting_power(100), 10);
    assert_eq!(VotingEngine::calculate_quadratic_voting_power(u64::MAX), 4_294_967_295);
}

#[test]
fn base_voting_power_by_stakeholder_kind() {
    assert_eq!(StakeholderType::Student.base_voting_power(), 10);
    assert_eq!(StakeholderType::Validator.base_voting_power(), 400);
}

#[test]
fn risk_levels_bucket_the_score() {
    assert_eq!(RiskLevel::from_score(850), RiskLevel::VeryLow);
    assert_eq!(RiskLevel::from_score(650), RiskLevel::Low);
    assert_eq!(RiskLevel::from_score(500), RiskLevel::Medium);
    assert_eq!(RiskLevel::from_score(350), RiskLevel::High);
    assert_eq!(RiskLevel::from_score(100), RiskLevel::VeryHigh);
    assert_eq!(RiskLevel::from_score(350).to_interest_rate(), 800);
}

#[test]
fn evidence_impact_score_ranges() {
    assert_eq!(EvidenceImpact::StronglyPositive.to_score_range(), (50, 100));
    assert_eq!(EvidenceImpact::Neutral.to_score_range(), (0, 0));
    assert_eq!(EvidenceImpact::StronglyNegative.to_score_range(), (-100, -50));
}

#[test]
fn presentation_check_wants_dotted_tokens() {
    assert_eq!(VerifiableCredentialService::verify_presentation("header.payload").unwrap(), true);
    assert!(matches!(
        VerifiableCredentialService::verify_presentation(""),
        Err(StudiFiError::InvalidInput(_))
    ));
    assert!(VerifiableCredentialService::verify_presentation("nodots").is_err());
}

#[test]
fn credential_records_expire_and_revoke() {
    let year = 365 * 24 * 60 * 60 * 1_000_000_000u64;
    let mut record =
        CredentialIssuanceRecord::new("alice".to_string(), "enrollment".to_string(), 1_000);
    assert!(record.is_valid(1_000));
    assert!(!record.is_expired(year + 1_000));
    assert!(record.is_expired(year + 1_001));
    assert!(!record.is_valid(year + 1_001));
    record.revoke(2_000);
    assert!(!record.is_valid(2_000));
    assert_eq!(record.revoked_at, Some(2_000));
}

#[test]
fn health_score_penalties_and_buckets() {
    // comfortable ratios: a perfect score
    assert_eq!(calculate_health_score(8_000, 2_000, 0, 5_000), 10_000);
    // a thin reserve costs twice the shortfall
    assert_eq!(calculate_health_score(1_000, 2_000, 0, 5_000), 9_000);
    // defaults cost five times their rate
    assert_eq!(calculate_health_score(8_000, 2_000, 400, 5_000), 8_000);
    assert_eq!(determine_health_status(8_000), TreasuryHealthStatus::Excellent);
    assert_eq!(determine_health_status(5_999), TreasuryHealthStatus::Fair);
    assert_eq!(determine_health_status(100), TreasuryHealthStatus::Critical);
}

#[test]
fn health_report_covers_the_loan_pool() {
    let mut storage = FinanceStorage::new();
    TreasuryEngine::initialize_treasuries(&mut storage, 0).unwrap();
    let health = TreasuryEngine::get_treasury_health_for_type(&storage, TreasuryType::Loan).unwrap();
    assert_eq!(health.total_funds, 1_000_000_00);
    assert_eq!(health.reserve_ratio_bps, 8_000);
    assert_eq!(health.utilization_rate_bps, 2_000);
}

#[test]
fn errors_expose_kind_and_message() {
    let a = StudiFiError::NotFound("loan".to_string());
    let b = StudiFiError::NotFound("payment".to_string());
    let c = StudiFiError::Unauthorized("caller".to_string());
    assert!(a.same_kind(&b));
    assert!(!a.same_kind(&c));
    assert_eq!(a.message(), "loan");
}

#[test]
fn multi_treasury_health_weighs_the_pools() {
    let mut storage = FinanceStorage::new();
    TreasuryEngine::initialize_treasuries(&mut storage, 0).unwrap();
    let overview = TreasuryEngine::get_multi_treasury_health(&storage).unwrap();
    assert_eq!(overview.total_platform_funds, 1_700_000_00);
    let l = overview.loan_treasury.health_score_bps;
    let s = overview.scholarship_treasury.health_score_bps;
    let p = overview.protocol_treasury.health_score_bps;
    assert_eq!(overview.overall_health_score_bps, (l * 5 + s * 3 + p * 2) / 10);
}

#[test]
fn pagination_selects_the_window() {
    let items: Vec<u64> = (0..10).collect();
    let page = paginate(&items, &PaginationParams { offset: 4, limit: 3 });
    assert_eq!(page.items, vec![4, 5, 6]);
    assert_eq!(page.total_count, 10);
    assert!(page.has_more);
    let tail = paginate(&items, &PaginationParams { offset: 8, limit: 5 });
    assert_eq!(tail.items, vec![8, 9]);
    assert!(!tail.has_more);
    let beyond = paginate(&items, &PaginationParams { offset: 50, limit: 5 });
    assert!(beyond.items.is_empty());
}
