use vstd::prelude::*;

verus! {

/// Basis-point scale: this many basis points make the whole (1.0 == 100%).
pub const BPS_SCALE: u64 = 10_000;

/// Nanoseconds in one second.
pub const NANOS_PER_SECOND: u64 = 1_000_000_000;

/// Nanoseconds in one day.
pub const NANOS_PER_DAY: u64 = 24 * 60 * 60 * 1_000_000_000;

/// Nanoseconds in one scheduling month (fixed 30-day approximation).
pub const NANOS_PER_MONTH: u64 = 30 * 24 * 60 * 60 * 1_000_000_000;

/// Default pagination limit
pub const DEFAULT_PAGE_LIMIT: u32 = 50;

/// Maximum pagination limit
pub const MAX_PAGE_LIMIT: u32 = 1000;

/// Credit score ranges
pub const CREDIT_SCORE_MIN: u32 = 0;
pub const CREDIT_SCORE_MAX: u32 = 1000;
pub const CREDIT_SCORE_EXCELLENT: u32 = 800;
pub const CREDIT_SCORE_GOOD: u32 = 650;
pub const CREDIT_SCORE_FAIR: u32 = 500;
pub const CREDIT_SCORE_POOR: u32 = 350;

/// Loan limits, in cents
pub const MIN_LOAN_AMOUNT: u64 = 100_00;
pub const MAX_LOAN_AMOUNT: u64 = 50_000_00;
pub const MIN_LOAN_TERM_MONTHS: u32 = 6;
pub const MAX_LOAN_TERM_MONTHS: u32 = 120;

/// Interest rate limits, in basis points of annual rate
pub const MIN_INTEREST_RATE_BPS: u64 = 0;
pub const MAX_INTEREST_RATE_BPS: u64 = 2_500;

/// Grace period limits
pub const MIN_GRACE_PERIOD_MONTHS: u32 = 0;
pub const MAX_GRACE_PERIOD_MONTHS: u32 = 12;

/// Automation cadence
pub const AUTOMATION_INTERVAL_SECONDS: u64 = 3600;
pub const PAYMENT_REMINDER_DAYS: u64 = 7;
pub const OVERDUE_CHECK_DAYS: u64 = 1;

/// Days overdue after which a loan defaults
pub const DEFAULT_AFTER_DAYS_OVERDUE: u64 = 90;

/// Late fee: share of the monthly payment, and the floor in cents
pub const LATE_FEE_BPS_OF_PAYMENT: u64 = 500;
pub const MIN_LATE_FEE: u64 = 25_00;

/// Early payoff penalty: share of the remaining balance, in basis points
pub const PREPAYMENT_PENALTY_BPS: u64 = 200;

/// Origination fee: share of the principal, in basis points
pub const ORIGINATION_FEE_BPS: u64 = 100;

/// Treasury proposal limits, in cents
pub const MIN_PROPOSAL_AMOUNT: u64 = 100_00;
pub const MAX_PROPOSAL_AMOUNT: u64 = 1_000_000_00;

/// Scholarship limits
pub const MIN_SCHOLARSHIP_AMOUNT: u64 = 500_00;
pub const MAX_SCHOLARSHIP_AMOUNT: u64 = 100_000_00;
pub const MAX_SCHOLARSHIP_RECIPIENTS: u32 = 100;

/// Text field limits
pub const MAX_NAME_LENGTH: usize = 100;
pub const MAX_EMAIL_LENGTH: usize = 254;
pub const MAX_DESCRIPTION_LENGTH: usize = 2000;
pub const MAX_TITLE_LENGTH: usize = 200;
pub const MAX_SANITIZED_TEXT_LENGTH: usize = 1000;

/// Identifier prefixes
pub const STUDENT_PROFILE_PREFIX: &'static str = "STUDENT";
pub const LOAN_APPLICATION_PREFIX: &'static str = "APP";
pub const LOAN_PREFIX: &'static str = "LOAN";
pub const PAYMENT_PREFIX: &'static str = "PAY";
pub const PROPOSAL_PREFIX: &'static str = "PROP";
pub const SCHOLARSHIP_PREFIX: &'static str = "SCHOL";
pub const COMPLIANCE_RECORD_PREFIX: &'static str = "COMP";
pub const AUDIT_LOG_PREFIX: &'static str = "AUDIT";
pub const REPORT_PREFIX: &'static str = "RPT";

/// Stakeholder voting power
pub const VOTING_POWER_STUDENT: u64 = 10;
pub const VOTING_POWER_DONOR: u64 = 50;
pub const VOTING_POWER_UNIVERSITY: u64 = 100;
pub const VOTING_POWER_COMMUNITY: u64 = 5;
pub const VOTING_POWER_TEAM: u64 = 200;

/// Annual interest rates by risk level, in basis points
pub const INTEREST_RATE_VERY_LOW_BPS: u64 = 0;
pub const INTEREST_RATE_LOW_BPS: u64 = 200;
pub const INTEREST_RATE_MEDIUM_BPS: u64 = 500;
pub const INTEREST_RATE_HIGH_BPS: u64 = 800;
pub const INTEREST_RATE_VERY_HIGH_BPS: u64 = 1200;

/// Risk level thresholds over the credit score range
pub const RISK_LEVEL_VERY_LOW_THRESHOLD: u32 = 800;
pub const RISK_LEVEL_LOW_THRESHOLD: u32 = 650;
pub const RISK_LEVEL_MEDIUM_THRESHOLD: u32 = 500;
pub const RISK_LEVEL_HIGH_THRESHOLD: u32 = 350;

} // verus!
