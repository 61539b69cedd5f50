use vstd::prelude::*;

use crate::Amount;
use crate::Timestamp;
use crate::common::Identifiable;
use crate::common::Timestamped;
use crate::constants::NANOS_PER_DAY;
use crate::constants::NANOS_PER_MONTH;

verus! {

/// Where a loan stands in its life.
#[derive(Clone, Copy, Debug, PartialEq, Eq, Structural)]
pub enum LoanStatus {
    Active,
    Late,
    Default,
    PaidOff,
    Deferred,
    InGracePeriod,
    Cancelled,
}

impl LoanStatus {
    /// Terminal states and the administrative ones keep a loan out of the
    /// automated sweep.
    pub open spec fn spec_is_swept(&self) -> bool {
        self is Active || self is Late
    }

    /// True for the statuses the automated sweep still visits.
    pub fn is_swept(&self) -> (r: bool)
        ensures
            r == self.spec_is_swept(),
    {
        match self {
            LoanStatus::Active => true,
            LoanStatus::Late => true,
            _ => false,
        }
    }
}

/// An active loan and its full repayment bookkeeping.
#[derive(Debug)]
pub struct Loan {
    pub id: String,
    pub student_id: String,
    pub original_amount: Amount,
    pub current_balance: Amount,
    pub interest_rate_bps: u64,
    pub term_months: u32,
    pub monthly_payment: Amount,
    pub grace_period_months: u32,
    pub origination_fee: Amount,
    pub status: LoanStatus,
    pub created_at: Timestamp,
    pub first_payment_due: Timestamp,
    pub last_payment_date: Option<Timestamp>,
    pub payments_made: u32,
    pub late_payments: u32,
    pub purpose: String,
    pub collateral_required: bool,
    pub cosigner_id: Option<String>,
    pub special_conditions: Vec<String>,
}

/// `a + b` capped at the largest `u64`.
pub open spec fn sat_add_u64(a: int, b: int) -> int {
    if a + b > u64::MAX {
        u64::MAX as int
    } else {
        a + b
    }
}

/// `a * b` capped at the largest `u64`.
pub open spec fn sat_mul_u64(a: int, b: int) -> int {
    if a * b > u64::MAX {
        u64::MAX as int
    } else {
        a * b
    }
}

/// When the next scheduled payment of a loan falls due: one scheduling month
/// per payment already made, from the first due date, saturating at the end of
/// representable time.
pub open spec fn next_due_of(m: LoanModel) -> int {
    sat_add_u64(m.first_payment_due as int, (m.payments_made as int) * (NANOS_PER_MONTH as int))
}

/// An overdue loan: active, and past its next due date at `now`.
pub open spec fn is_overdue_of(m: LoanModel, now: Timestamp) -> bool {
    m.status is Active && now > next_due_of(m)
}

/// Whole days a loan is past due at `now`; zero when it is not overdue.
pub open spec fn days_overdue_of(m: LoanModel, now: Timestamp) -> int {
    if is_overdue_of(m, now) {
        (now - next_due_of(m)) / (NANOS_PER_DAY as int)
    } else {
        0
    }
}

impl Loan {
    /// A freshly originated loan: active, at its full balance, with the
    /// first payment due after the grace period (saturating at the end of
    /// representable time).
    pub fn new(
        id: String,
        student_id: String,
        amount: Amount,
        interest_rate_bps: u64,
        term_months: u32,
        monthly_payment: Amount,
        grace_period_months: u32,
        origination_fee: Amount,
        purpose: String,
        collateral_required: bool,
        cosigner_id: Option<String>,
        special_conditions: Vec<String>,
        now: Timestamp,
    ) -> (r: Loan)
        ensures
            r@ == (LoanModel {
                id: id@,
                student_id: student_id@,
                original_amount: amount,
                current_balance: amount,
                interest_rate_bps,
                term_months,
                monthly_payment,
                grace_period_months,
                origination_fee,
                status: LoanStatus::Active,
                created_at: now,
                first_payment_due: sat_add_u64(
                    now as int,
                    (grace_period_months as int) * (NANOS_PER_MONTH as int),
                ) as u64,
                last_payment_date: None,
                payments_made: 0,
                late_payments: 0,
                purpose: purpose@,
                collateral_required,
                cosigner_id: (match cosigner_id {
                    Some(c) => Some(c@),
                    None => None,
                }),
                special_conditions: special_conditions@.map_values(|s: String| s@),
            }),
    {
        proof {
            vstd::arithmetic::mul::lemma_mul_upper_bound(grace_period_months as int,
                u32::MAX as int, NANOS_PER_MONTH as int, NANOS_PER_MONTH as int);
        }
        let due_wide: u128 = now as u128 + (grace_period_months as u128) * (
        NANOS_PER_MONTH as u128);
        let first_payment_due: u64 = if due_wide > u64::MAX as u128 {
            u64::MAX
        } else {
            due_wide as u64
        };
        Loan {
            id,
            student_id,
            original_amount: amount,
            current_balance: amount,
            interest_rate_bps,
            term_months,
            monthly_payment,
            grace_period_months,
            origination_fee,
            status: LoanStatus::Active,
            created_at: now,
            first_payment_due,
            last_payment_date: None,
            payments_made: 0,
            late_payments: 0,
            purpose,
            collateral_required,
            cosigner_id,
            special_conditions,
        }
    }

    /// When the next scheduled payment falls due: one scheduling month after
    /// the previous one, starting from the first due date. Saturates at the
    /// end of representable time.
    pub open spec fn spec_next_payment_due(&self) -> int {
        next_due_of(self@)
    }

    /// The due date of the next scheduled payment.
    pub fn next_payment_due(&self) -> (r: Timestamp)
        ensures
            r == self.spec_next_payment_due(),
    {
        proof {
            vstd::arithmetic::mul::lemma_mul_upper_bound(self.payments_made as int,
                u32::MAX as int, NANOS_PER_MONTH as int, NANOS_PER_MONTH as int);
        }
        let due: u128 = self.first_payment_due as u128 + (self.payments_made as u128)
            * (NANOS_PER_MONTH as u128);
        if due > u64::MAX as u128 {
            u64::MAX
        } else {
            due as u64
        }
    }

    /// An overdue loan: active, and past its next due date at `now`.
    pub open spec fn spec_is_overdue(&self, now: Timestamp) -> bool {
        is_overdue_of(self@, now)
    }

    /// True when the loan is active and past its next due date.
    pub fn is_overdue(&self, now: Timestamp) -> (r: bool)
        ensures
            r == self.spec_is_overdue(now),
    {
        match self.status {
            LoanStatus::Active => now > self.next_payment_due(),
            _ => false,
        }
    }

    /// Whole days by which the loan is past due at `now`; zero when it is not
    /// overdue.
    pub open spec fn spec_days_overdue(&self, now: Timestamp) -> int {
        days_overdue_of(self@, now)
    }

    /// Whole days the loan is past due at `now`.
    pub fn days_overdue(&self, now: Timestamp) -> (r: u64)
        ensures
            r == self.spec_days_overdue(now),
    {
        if !self.is_overdue(now) {
            return 0;
        }
        (now - self.next_payment_due()) / NANOS_PER_DAY
    }

    /// Interest paid so far: everything paid beyond the principal reduction,
    /// floored at zero, saturating at the largest amount.
    pub open spec fn spec_total_interest_paid(&self) -> int {
        let total_paid = sat_mul_u64(self.monthly_payment as int, self.payments_made as int);
        let principal_paid = if self.original_amount >= self.current_balance {
            self.original_amount - self.current_balance
        } else {
            0
        };
        if total_paid >= principal_paid {
            total_paid - principal_paid
        } else {
            0
        }
    }

    /// Interest paid so far over the scheduled payments.
    pub fn total_interest_paid(&self) -> (r: Amount)
        ensures
            r == self.spec_total_interest_paid(),
    {
        proof {
            vstd::arithmetic::mul::lemma_mul_upper_bound(self.monthly_payment as int,
                u64::MAX as int, self.payments_made as int, u32::MAX as int);
        }
        let total: u128 = (self.monthly_payment as u128) * (self.payments_made as u128);
        let total_paid: u64 = if total > u64::MAX as u128 {
            u64::MAX
        } else {
            total as u64
        };
        let principal_paid: u64 = if self.original_amount >= self.current_balance {
            self.original_amount - self.current_balance
        } else {
            0
        };
        if total_paid >= principal_paid {
            total_paid - principal_paid
        } else {
            0
        }
    }

    /// Scheduled months not yet paid.
    pub fn remaining_term_months(&self) -> (r: u32)
        ensures
            self.term_months >= self.payments_made ==> r == self.term_months - self.payments_made,
            self.term_months < self.payments_made ==> r == 0,
    {
        if self.term_months >= self.payments_made {
            self.term_months - self.payments_made
        } else {
            0
        }
    }

    /// Interest owed over the whole scheduled life of the loan: all payments
    /// less the principal, floored at zero, saturating at the largest amount.
    pub open spec fn spec_total_interest(&self) -> int {
        let total = sat_mul_u64(self.monthly_payment as int, self.term_months as int);
        if total >= self.original_amount {
            total - self.original_amount
        } else {
            0
        }
    }

    /// Interest owed over the whole scheduled life of the loan.
    pub fn calculate_total_interest(&self) -> (r: Amount)
        ensures
            r == self.spec_total_interest(),
    {
        proof {
            vstd::arithmetic::mul::lemma_mul_upper_bound(self.monthly_payment as int,
                u64::MAX as int, self.term_months as int, u32::MAX as int);
        }
        let total: u128 = (self.monthly_payment as u128) * (self.term_months as u128);
        let total_payments: u64 = if total > u64::MAX as u128 {
            u64::MAX
        } else {
            total as u64
        };
        if total_payments >= self.original_amount {
            total_payments - self.original_amount
        } else {
            0
        }
    }
}

impl Timestamped for Loan {
    fn created_at(&self) -> (r: Timestamp)
        ensures
            r == self.created_at,
    {
        self.created_at
    }

    fn updated_at(&self) -> (r: Timestamp)
        ensures
            r == (if self.last_payment_date is Some {
                self.last_payment_date->0
            } else {
                self.created_at
            }),
    {
        match self.last_payment_date {
            Some(t) => t,
            None => self.created_at,
        }
    }

    fn set_updated_at(&mut self, timestamp: Timestamp)
        ensures
            *final(self) == (Loan { last_payment_date: Some(timestamp), ..*old(self) }),
    {
        self.last_payment_date = Some(timestamp);
    }
}

impl Identifiable for Loan {
    fn id(&self) -> (r: &str)
        ensures
            r@ == self.id@,
    {
        self.id.as_str()
    }
}

/// Why a payment was made.
#[derive(Clone, Copy, Debug, PartialEq, Eq, Structural)]
pub enum PaymentType {
    Regular,
    EarlyPayment,
    LatePayment,
    PartialPayment,
    FullPayoff,
    LateFee,
}

/// How a payment was settled.
#[derive(Debug, PartialEq, Eq)]
pub enum PaymentMethod {
    ICP,
    BankTransfer,
    CreditCard,
    Other(String),
}

/// Where a payment stands in processing.
#[derive(Clone, Copy, Debug, PartialEq, Eq, Structural)]
pub enum PaymentStatus {
    Pending,
    Processing,
    Completed,
    Failed,
    Cancelled,
    Refunded,
}

/// One payment attempt against a loan.
#[derive(Debug)]
pub struct Payment {
    pub id: String,
    pub loan_id: String,
    pub student_id: String,
    pub amount: Amount,
    pub principal_portion: Amount,
    pub interest_portion: Amount,
    pub late_fee: Amount,
    pub payment_type: PaymentType,
    pub payment_method: PaymentMethod,
    pub status: PaymentStatus,
    pub created_at: Timestamp,
    pub processed_at: Option<Timestamp>,
    pub transaction_hash: Option<String>,
    pub notes: String,
}

impl Payment {
    /// A fresh, pending payment record created at `now`.
    pub fn new(
        id: String,
        loan_id: String,
        student_id: String,
        amount: Amount,
        principal_portion: Amount,
        interest_portion: Amount,
        late_fee: Amount,
        payment_type: PaymentType,
        payment_method: PaymentMethod,
        now: Timestamp,
    ) -> (r: Payment)
        ensures
            r.id == id,
            r.loan_id == loan_id,
            r.student_id == student_id,
            r.amount == amount,
            r.principal_portion == principal_portion,
            r.interest_portion == interest_portion,
            r.late_fee == late_fee,
            r.payment_type == payment_type,
            r.payment_method == payment_method,
            r.status is Pending,
            r.created_at == now,
            r.processed_at is None,
            r.transaction_hash is None,
            r.notes@ == Seq::<char>::empty(),
    {
        Payment {
            id,
            loan_id,
            student_id,
            amount,
            principal_portion,
            interest_portion,
            late_fee,
            payment_type,
            payment_method,
            status: PaymentStatus::Pending,
            created_at: now,
            processed_at: None,
            transaction_hash: None,
            notes: String::new(),
        }
    }
}

impl Timestamped for Payment {
    fn created_at(&self) -> (r: Timestamp)
        ensures
            r == self.created_at,
    {
        self.created_at
    }

    fn updated_at(&self) -> (r: Timestamp)
        ensures
            r == (if self.processed_at is Some {
                self.processed_at->0
            } else {
                self.created_at
            }),
    {
        match self.processed_at {
            Some(t) => t,
            None => self.created_at,
        }
    }

    fn set_updated_at(&mut self, timestamp: Timestamp)
        ensures
            *final(self) == (Payment { processed_at: Some(timestamp), ..*old(self) }),
    {
        self.processed_at = Some(timestamp);
    }
}

impl Identifiable for Payment {
    fn id(&self) -> (r: &str)
        ensures
            r@ == self.id@,
    {
        self.id.as_str()
    }
}

/// The single pooled treasury the rebalancer works on.
#[derive(Debug)]
pub struct TreasuryConfig {
    pub total_funds: Amount,
    pub available_funds: Amount,
    pub reserved_funds: Amount,
    pub minimum_reserve_bps: u64,
    pub maximum_loan_to_fund_bps: u64,
    pub interest_reserve_bps: u64,
    pub emergency_fund_bps: u64,
    pub auto_rebalance_enabled: bool,
    pub last_rebalance: Timestamp,
}

impl Default for TreasuryConfig {
    /// The treasury the platform starts with: one million dollars, of which
    /// eight hundred thousand are available.
    fn default() -> (r: TreasuryConfig)
        ensures
            r.total_funds == 1_000_000_00,
            r.available_funds == 800_000_00,
            r.reserved_funds == 200_000_00,
            r.minimum_reserve_bps == 1_500,
            r.maximum_loan_to_fund_bps == 8_000,
            r.interest_reserve_bps == 500,
            r.emergency_fund_bps == 1_000,
            r.auto_rebalance_enabled == true,
            r.last_rebalance == 0,
    {
        TreasuryConfig {
            total_funds: 1_000_000_00,
            available_funds: 800_000_00,
            reserved_funds: 200_000_00,
            minimum_reserve_bps: 1_500,
            maximum_loan_to_fund_bps: 8_000,
            interest_reserve_bps: 500,
            emergency_fund_bps: 1_000,
            auto_rebalance_enabled: true,
            last_rebalance: 0,
        }
    }
}

/// Portfolio-wide figures derived from the stored loans and payments.
#[derive(Clone, Debug, PartialEq, Eq, Structural)]
pub struct TreasuryStats {
    pub total_loans_outstanding: Amount,
    pub total_loans_disbursed: Amount,
    pub total_payments_received: Amount,
    pub total_interest_earned: Amount,
    pub total_defaults: Amount,
    pub active_loan_count: u32,
    pub default_rate_bps: u64,
    pub average_loan_size: Amount,
    pub portfolio_yield_bps: u64,
}

/// Per-entity-kind counters behind identifier generation.
#[derive(Clone, Copy, Debug, PartialEq, Eq, Structural)]
pub struct Counters {
    pub loan_counter: u64,
    pub payment_counter: u64,
}

impl Default for Counters {
    /// Counters start at one so the first identifiers read naturally.
    fn default() -> (r: Counters)
        ensures
            r.loan_counter == 1,
            r.payment_counter == 1,
    {
        Counters { loan_counter: 1, payment_counter: 1 }
    }
}

/// The mathematical value of a `Loan`: the same fields with text as
/// character sequences.
pub struct LoanModel {
    pub id: Seq<char>,
    pub student_id: Seq<char>,
    pub original_amount: u64,
    pub current_balance: u64,
    pub interest_rate_bps: u64,
    pub term_months: u32,
    pub monthly_payment: u64,
    pub grace_period_months: u32,
    pub origination_fee: u64,
    pub status: LoanStatus,
    pub created_at: u64,
    pub first_payment_due: u64,
    pub last_payment_date: Option<u64>,
    pub payments_made: u32,
    pub late_payments: u32,
    pub purpose: Seq<char>,
    pub collateral_required: bool,
    pub cosigner_id: Option<Seq<char>>,
    pub special_conditions: Seq<Seq<char>>,
}

impl View for Loan {
    type V = LoanModel;

    open spec fn view(&self) -> LoanModel {
        LoanModel {
            id: self.id@,
            student_id: self.student_id@,
            original_amount: self.original_amount,
            current_balance: self.current_balance,
            interest_rate_bps: self.interest_rate_bps,
            term_months: self.term_months,
            monthly_payment: self.monthly_payment,
            grace_period_months: self.grace_period_months,
            origination_fee: self.origination_fee,
            status: self.status,
            created_at: self.created_at,
            first_payment_due: self.first_payment_due,
            last_payment_date: self.last_payment_date,
            payments_made: self.payments_made,
            late_payments: self.late_payments,
            purpose: self.purpose@,
            collateral_required: self.collateral_required,
            cosigner_id: match self.cosigner_id {
                Some(c) => Some(c@),
                None => None,
            },
            special_conditions: self.special_conditions@.map_values(|s: String| s@),
        }
    }
}

/// The mathematical value of a `PaymentMethod`.
pub enum PaymentMethodModel {
    ICP,
    BankTransfer,
    CreditCard,
    Other(Seq<char>),
}

impl View for PaymentMethod {
    type V = PaymentMethodModel;

    open spec fn view(&self) -> PaymentMethodModel {
        match self {
            PaymentMethod::ICP => PaymentMethodModel::ICP,
            PaymentMethod::BankTransfer => PaymentMethodModel::BankTransfer,
            PaymentMethod::CreditCard => PaymentMethodModel::CreditCard,
            PaymentMethod::Other(s) => PaymentMethodModel::Other(s@),
        }
    }
}

/// The mathematical value of a `Payment`.
pub struct PaymentModel {
    pub id: Seq<char>,
    pub loan_id: Seq<char>,
    pub student_id: Seq<char>,
    pub amount: u64,
    pub principal_portion: u64,
    pub interest_portion: u64,
    pub late_fee: u64,
    pub payment_type: PaymentType,
    pub payment_method: PaymentMethodModel,
    pub status: PaymentStatus,
    pub created_at: u64,
    pub processed_at: Option<u64>,
    pub transaction_hash: Option<Seq<char>>,
    pub notes: Seq<char>,
}

impl View for Payment {
    type V = PaymentModel;

    open spec fn view(&self) -> PaymentModel {
        PaymentModel {
            id: self.id@,
            loan_id: self.loan_id@,
            student_id: self.student_id@,
            amount: self.amount,
            principal_portion: self.principal_portion,
            interest_portion: self.interest_portion,
            late_fee: self.late_fee,
            payment_type: self.payment_type,
            payment_method: self.payment_method@,
            status: self.status,
            created_at: self.created_at,
            processed_at: self.processed_at,
            transaction_hash: match self.transaction_hash {
                Some(h) => Some(h@),
                None => None,
            },
            notes: self.notes@,
        }
    }
}

impl Clone for PaymentMethod {
    /// A clone names the same method of settlement.
    fn clone(&self) -> (r: PaymentMethod)
        ensures
            r@ == self@,
    {
        match self {
            PaymentMethod::ICP => PaymentMethod::ICP,
            PaymentMethod::BankTransfer => PaymentMethod::BankTransfer,
            PaymentMethod::CreditCard => PaymentMethod::CreditCard,
            PaymentMethod::Other(s) => PaymentMethod::Other(s.clone()),
        }
    }
}

impl Clone for Loan {
    /// A clone carries the same mathematical value.
    fn clone(&self) -> (r: Loan)
        ensures
            r@ == self@,
    {
        let conditions = self.special_conditions.clone();
        proof {
            assert(conditions@ =~= self.special_conditions@);
        }
        let r = Loan {
            id: self.id.clone(),
            student_id: self.student_id.clone(),
            original_amount: self.original_amount,
            current_balance: self.current_balance,
            interest_rate_bps: self.interest_rate_bps,
            term_months: self.term_months,
            monthly_payment: self.monthly_payment,
            grace_period_months: self.grace_period_months,
            origination_fee: self.origination_fee,
            status: self.status,
            created_at: self.created_at,
            first_payment_due: self.first_payment_due,
            last_payment_date: self.last_payment_date,
            purpose: self.purpose.clone(),
            payments_made: self.payments_made,
            late_payments: self.late_payments,
            collateral_required: self.collateral_required,
            cosigner_id: match &self.cosigner_id {
                Some(c) => Some(c.clone()),
                None => None,
            },
            special_conditions: conditions,
        };
        r
    }
}

impl Clone for Payment {
    /// A clone carries the same mathematical value.
    fn clone(&self) -> (r: Payment)
        ensures
            r@ == self@,
    {
        Payment {
            id: self.id.clone(),
            loan_id: self.loan_id.clone(),
            student_id: self.student_id.clone(),
            amount: self.amount,
            principal_portion: self.principal_portion,
            interest_portion: self.interest_portion,
            late_fee: self.late_fee,
            payment_type: self.payment_type,
            payment_method: self.payment_method.clone(),
            status: self.status,
            created_at: self.created_at,
            processed_at: self.processed_at,
            transaction_hash: match &self.transaction_hash {
                Some(h) => Some(h.clone()),
                None => None,
            },
            notes: self.notes.clone(),
        }
    }
}

impl Clone for TreasuryConfig {
    /// A clone is equal to the original: every field is a plain value.
    fn clone(&self) -> (r: TreasuryConfig)
        ensures
            r == *self,
    {
        TreasuryConfig {
            total_funds: self.total_funds,
            available_funds: self.available_funds,
            reserved_funds: self.reserved_funds,
            minimum_reserve_bps: self.minimum_reserve_bps,
            maximum_loan_to_fund_bps: self.maximum_loan_to_fund_bps,
            interest_reserve_bps: self.interest_reserve_bps,
            emergency_fund_bps: self.emergency_fund_bps,
            auto_rebalance_enabled: self.auto_rebalance_enabled,
            last_rebalance: self.last_rebalance,
        }
    }
}

} // verus!
