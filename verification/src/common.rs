use vstd::prelude::*;

use crate::Amount;
use crate::Timestamp;
use crate::errors::StudiFiResult;

verus! {

/// Validation hook shared by records that check their own fields.
pub trait Validate {
    fn validate(&self) -> StudiFiResult<()>;
}

/// Records that carry creation and update times.
pub trait Timestamped {
    fn created_at(&self) -> Timestamp;

    fn updated_at(&self) -> Timestamp;

    fn set_updated_at(&mut self, timestamp: Timestamp);
}

/// Records addressed by a textual identifier.
pub trait Identifiable {
    fn id(&self) -> &str;
}

/// Pagination window requested by a caller.
#[derive(Clone, Debug)]
pub struct PaginationParams {
    pub offset: u32,
    pub limit: u32,
}

impl PaginationParams {
    /// The window the platform serves when the caller names none.
    pub fn new_default() -> (r: PaginationParams)
        ensures
            r.offset == 0,
            r.limit == crate::constants::DEFAULT_PAGE_LIMIT,
    {
        PaginationParams { offset: 0, limit: crate::constants::DEFAULT_PAGE_LIMIT }
    }
}

/// One page of results, with enough bookkeeping to ask for the next.
#[derive(Clone, Debug)]
pub struct PaginatedResponse<T> {
    pub items: Vec<T>,
    pub total_count: u32,
    pub offset: u32,
    pub limit: u32,
    pub has_more: bool,
}

impl<T> PaginatedResponse<T> {
    /// Wrap one page; `has_more` says whether entries follow this window.
    pub fn new(items: Vec<T>, total_count: u32, offset: u32, limit: u32) -> (r:
        PaginatedResponse<T>)
        requires
            offset + items@.len() <= u32::MAX,
        ensures
            r.items == items,
            r.total_count == total_count,
            r.offset == offset,
            r.limit == limit,
            r.has_more == (offset + items@.len() < total_count),
    {
        let n: u32 = items.len() as u32;
        let has_more = offset + n < total_count;
        PaginatedResponse { items, total_count, offset, limit, has_more }
    }
}

/// Aggregate counts reported by the platform.
#[derive(Clone, Debug, PartialEq, Eq, Structural)]
pub struct Statistics {
    pub total_count: u32,
    pub active_count: u32,
    pub completed_count: u32,
    pub failed_count: u32,
    pub total_amount: Amount,
    pub average_amount: Amount,
}

/// Actions recorded in the audit trail.
#[derive(Clone, Debug, PartialEq, Eq, Structural)]
pub enum AuditEventType {
    ProfileCreated,
    ProfileUpdated,
    LoanApplicationSubmitted,
    LoanApplicationProcessed,
    LoanCreated,
    PaymentProcessed,
    CreditScoreCalculated,
    ProposalCreated,
    VoteCast,
    RoleAssigned,
    SessionCreated,
    SystemConfigChanged,
    TreasuryOperation,
}

/// Outcome of a call into another subsystem.
#[derive(Clone, Debug)]
pub struct InterCanisterResult<T> {
    pub success: bool,
    pub data: Option<T>,
    pub error: Option<String>,
    pub timestamp: Timestamp,
}

/// Platform-wide limits handed to callers that build requests.
#[derive(Clone, Debug, PartialEq, Eq, Structural)]
pub struct PlatformLimits {
    pub max_loan_amount: Amount,
    pub min_loan_amount: Amount,
    pub max_loan_term_months: u32,
    pub min_loan_term_months: u32,
    pub max_interest_rate_bps: u64,
    pub min_credit_score: u32,
    pub max_credit_score: u32,
}

/// The limits the platform is configured with.
pub fn get_platform_limits() -> (r: PlatformLimits)
    ensures
        r.max_loan_amount == crate::constants::MAX_LOAN_AMOUNT,
        r.min_loan_amount == crate::constants::MIN_LOAN_AMOUNT,
        r.max_loan_term_months == crate::constants::MAX_LOAN_TERM_MONTHS,
        r.min_loan_term_months == crate::constants::MIN_LOAN_TERM_MONTHS,
        r.max_interest_rate_bps == crate::constants::MAX_INTEREST_RATE_BPS,
        r.min_credit_score == crate::constants::CREDIT_SCORE_MIN,
        r.max_credit_score == crate::constants::CREDIT_SCORE_MAX,
{
    PlatformLimits {
        max_loan_amount: crate::constants::MAX_LOAN_AMOUNT,
        min_loan_amount: crate::constants::MIN_LOAN_AMOUNT,
        max_loan_term_months: crate::constants::MAX_LOAN_TERM_MONTHS,
        min_loan_term_months: crate::constants::MIN_LOAN_TERM_MONTHS,
        max_interest_rate_bps: crate::constants::MAX_INTEREST_RATE_BPS,
        min_credit_score: crate::constants::CREDIT_SCORE_MIN,
        max_credit_score: crate::constants::CREDIT_SCORE_MAX,
    }
}

} // verus!
