use vstd::prelude::*;

use crate::Amount;
use crate::Timestamp;
use crate::constants::INTEREST_RATE_HIGH_BPS;
use crate::constants::INTEREST_RATE_LOW_BPS;
use crate::constants::INTEREST_RATE_MEDIUM_BPS;
use crate::constants::INTEREST_RATE_VERY_HIGH_BPS;
use crate::constants::INTEREST_RATE_VERY_LOW_BPS;

verus! {

/// The risk bucket a credit score falls into.
#[derive(Clone, Copy, Debug, PartialEq, Eq, Structural)]
pub enum RiskLevel {
    VeryLow,
    Low,
    Medium,
    High,
    VeryHigh,
}

/// The risk bucket of a score over the platform's scale.
pub open spec fn spec_risk_level(score: int) -> RiskLevel {
    if 800 <= score <= 1000 {
        RiskLevel::VeryLow
    } else if 650 <= score <= 799 {
        RiskLevel::Low
    } else if 500 <= score <= 649 {
        RiskLevel::Medium
    } else if 350 <= score <= 499 {
        RiskLevel::High
    } else {
        RiskLevel::VeryHigh
    }
}

impl RiskLevel {
    /// Bucket a credit score; anything above the scale counts as the worst.
    pub fn from_score(score: u32) -> (r: RiskLevel)
        ensures
            r == spec_risk_level(score as int),
    {
        if 800 <= score && score <= 1000 {
            RiskLevel::VeryLow
        } else if 650 <= score && score <= 799 {
            RiskLevel::Low
        } else if 500 <= score && score <= 649 {
            RiskLevel::Medium
        } else if 350 <= score && score <= 499 {
            RiskLevel::High
        } else {
            RiskLevel::VeryHigh
        }
    }

    /// The annual interest rate quoted for a risk bucket, in basis points.
    pub fn to_interest_rate(&self) -> (r: u64)
        ensures
            self is VeryLow ==> r == INTEREST_RATE_VERY_LOW_BPS,
            self is Low ==> r == INTEREST_RATE_LOW_BPS,
            self is Medium ==> r == INTEREST_RATE_MEDIUM_BPS,
            self is High ==> r == INTEREST_RATE_HIGH_BPS,
            self is VeryHigh ==> r == INTEREST_RATE_VERY_HIGH_BPS,
    {
        match self {
            RiskLevel::VeryLow => INTEREST_RATE_VERY_LOW_BPS,
            RiskLevel::Low => INTEREST_RATE_LOW_BPS,
            RiskLevel::Medium => INTEREST_RATE_MEDIUM_BPS,
            RiskLevel::High => INTEREST_RATE_HIGH_BPS,
            RiskLevel::VeryHigh => INTEREST_RATE_VERY_HIGH_BPS,
        }
    }
}

/// The aspect of a borrower a credit factor describes.
#[derive(Clone, Copy, Debug, PartialEq, Eq, Structural)]
pub enum FactorCategory {
    Academic,
    Financial,
    Program,
    Progress,
    Historical,
    External,
}

/// The direction a credit factor is moving.
#[derive(Clone, Copy, Debug, PartialEq, Eq, Structural)]
pub enum Trend {
    Improving,
    Stable,
    Declining,
}

/// What a requested loan pays for.
#[derive(Clone, Debug, PartialEq, Eq)]
pub enum LoanPurpose {
    Tuition,
    BooksAndSupplies,
    LivingExpenses,
    Technology,
    Research,
    StudyAbroad,
    Emergency,
    Other(String),
}

/// Kinds of community-submitted evidence about a borrower.
#[derive(Clone, Debug, PartialEq, Eq)]
pub enum EvidenceType {
    LocalKnowledge,
    AcademicRecord,
    FinancialCircumstance,
    CharacterReference,
    WorkExperience,
    CommunityInvolvement,
    Other(String),
}

/// How strongly a piece of evidence moves a credit assessment.
#[derive(Clone, Copy, Debug, PartialEq, Eq, Structural)]
pub enum EvidenceImpact {
    StronglyPositive,
    Positive,
    SlightlyPositive,
    Neutral,
    SlightlyNegative,
    Negative,
    StronglyNegative,
}

impl EvidenceImpact {
    /// The score adjustment range an impact stands for, low end first.
    pub fn to_score_range(&self) -> (r: (i32, i32))
        ensures
            self is StronglyPositive ==> r == (50i32, 100i32),
            self is Positive ==> r == (20i32, 50i32),
            self is SlightlyPositive ==> r == (5i32, 20i32),
            self is Neutral ==> r == (0i32, 0i32),
            self is SlightlyNegative ==> r == (-20i32, -5i32),
            self is Negative ==> r == (-50i32, -20i32),
            self is StronglyNegative ==> r == (-100i32, -50i32),
            r.0 <= r.1,
    {
        match self {
            EvidenceImpact::StronglyPositive => (50, 100),
            EvidenceImpact::Positive => (20, 50),
            EvidenceImpact::SlightlyPositive => (5, 20),
            EvidenceImpact::Neutral => (0, 0),
            EvidenceImpact::SlightlyNegative => (-20, -5),
            EvidenceImpact::Negative => (-50, -20),
            EvidenceImpact::StronglyNegative => (-100, -50),
        }
    }
}

/// Where a community validation request stands.
#[derive(Clone, Copy, Debug, PartialEq, Eq, Structural)]
pub enum ValidationStatus {
    Active,
    Completed,
    Applied,
    Rejected,
    Expired,
}

/// A borrower's employment situation.
#[derive(Clone, Copy, Debug, PartialEq, Eq, Structural)]
pub enum EmploymentStatus {
    Unemployed,
    PartTime,
    FullTime,
    Internship,
    Fellowship,
    TeachingAssistant,
    ResearchAssistant,
}

/// Where a previously held loan stands.
#[derive(Clone, Copy, Debug, PartialEq, Eq, Structural)]
pub enum LoanStatus {
    Current,
    Late,
    Default,
    PaidOff,
    Deferred,
}

/// One earlier loan on a borrower's record.
#[derive(Clone, Debug)]
pub struct PreviousLoan {
    pub loan_type: String,
    pub original_amount: Amount,
    pub remaining_balance: Amount,
    pub monthly_payment: Amount,
    pub status: LoanStatus,
    pub on_time_payments: u32,
    pub late_payments: u32,
}

/// One source of financial aid on a borrower's record.
#[derive(Clone, Debug)]
pub struct FinancialAid {
    pub aid_type: String,
    pub amount: Amount,
    pub renewable: bool,
    pub requirements: String,
}

/// A borrower's financial picture at application time.
#[derive(Clone, Debug)]
pub struct FinancialInfo {
    pub monthly_income: Amount,
    pub monthly_expenses: Amount,
    pub existing_debt: Amount,
    pub family_income: Amount,
    pub savings: Amount,
    pub employment_status: EmploymentStatus,
    pub credit_history_length_months: u32,
    pub previous_loans: Vec<PreviousLoan>,
    pub financial_aid: Vec<FinancialAid>,
}

/// Where a loan application stands.
#[derive(Clone, Copy, Debug, PartialEq, Eq, Structural)]
pub enum ApplicationStatus {
    Submitted,
    UnderReview,
    RequiresDocuments,
    Approved,
    Rejected,
    Withdrawn,
    Expired,
}

/// What the assessment recommends doing with an application.
#[derive(Clone, Copy, Debug, PartialEq, Eq, Structural)]
pub enum RecommendedAction {
    Approve,
    ApproveWithConditions,
    RequireAdditionalDocuments,
    RequireCosigner,
    ReduceLoanAmount,
    Reject,
    Defer,
}

/// Filters for browsing stored applications.
#[derive(Clone, Debug)]
pub struct ApplicationFilters {
    pub status: Option<ApplicationStatus>,
    pub min_amount: Option<Amount>,
    pub max_amount: Option<Amount>,
    pub university: Option<String>,
    pub program: Option<String>,
    pub risk_level: Option<RiskLevel>,
    pub date_from: Option<Timestamp>,
    pub date_to: Option<Timestamp>,
}

} // verus!
