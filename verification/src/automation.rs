use vstd::prelude::*;

use crate::Amount;
use crate::Timestamp;
use crate::constants::LATE_FEE_BPS_OF_PAYMENT;
use crate::constants::MIN_LATE_FEE;
use crate::constants::NANOS_PER_DAY;
use crate::constants::NANOS_PER_MONTH;
use crate::constants::PAYMENT_REMINDER_DAYS;
use crate::constants::DEFAULT_AFTER_DAYS_OVERDUE;
use crate::constants::PAYMENT_PREFIX;
use crate::constants::PREPAYMENT_PENALTY_BPS;
use crate::constants::BPS_SCALE;
use crate::errors::StudiFiResult;
use crate::loans::Loan;
use crate::loans::LoanModel;
use crate::loans::LoanStatus;
use crate::loans::Payment;
use crate::loans::PaymentMethod;
use crate::loans::PaymentModel;
use crate::loans::PaymentMethodModel;
use crate::loans::PaymentStatus;
use crate::loans::PaymentType;
use crate::loans::next_due_of;
use crate::loans::sat_add_u64;
use crate::storage::FinanceStorage;
use crate::storage::find_payment;
use crate::storage::payment_views;
use crate::storage::lemma_payment_views;
use crate::text::id_text;
use crate::text::str_eq;

verus! {

/// Automation engine: the loan lifecycle state machine and the recurring
/// maintenance sweep.
pub struct AutomationEngine;

/// Whole days past the next due date at `now`, from the dates alone; zero
/// when the loan is not yet past due.
pub open spec fn overdue_days_of(m: LoanModel, now: Timestamp) -> int {
    if now > next_due_of(m) {
        (now - next_due_of(m)) / (NANOS_PER_DAY as int)
    } else {
        0
    }
}

/// The lifecycle state a loan belongs in at `now`: the grace period before
/// the first due date, paid off at zero balance, and otherwise active, late,
/// or defaulted by how many days it is past due.
pub open spec fn loan_status_of(m: LoanModel, now: Timestamp) -> LoanStatus {
    if now < m.first_payment_due {
        LoanStatus::InGracePeriod
    } else if m.current_balance == 0 {
        LoanStatus::PaidOff
    } else if overdue_days_of(m, now) > DEFAULT_AFTER_DAYS_OVERDUE {
        LoanStatus::Default
    } else if overdue_days_of(m, now) > 0 {
        LoanStatus::Late
    } else {
        LoanStatus::Active
    }
}

/// How one payment splits between interest and principal: interest accrues
/// at one twelfth of the annual rate on the current balance, the rest of the
/// amount repays principal but never more than the balance.
#[derive(Clone, Copy, Debug, PartialEq, Eq, Structural)]
pub struct PaymentBreakdown {
    pub total_amount: Amount,
    pub principal_portion: Amount,
    pub interest_portion: Amount,
    pub late_fee: Amount,
    pub remaining_balance: Amount,
}

/// The split of a payment of `amount` against a balance at an annual rate.
pub open spec fn spec_payment_breakdown(balance: int, rate_bps: int, amount: int)
    -> PaymentBreakdown {
    let interest_due = balance * rate_bps / 120_000;
    let after_interest = if amount >= interest_due {
        amount - interest_due
    } else {
        0
    };
    let principal = if after_interest <= balance {
        after_interest
    } else {
        balance
    };
    PaymentBreakdown {
        total_amount: amount as u64,
        principal_portion: principal as u64,
        interest_portion: (amount - principal) as u64,
        late_fee: 0,
        remaining_balance: (balance - principal) as u64,
    }
}

/// The fee charged for a late payment: a share of the monthly payment,
/// floored at the minimum fee.
pub open spec fn spec_late_fee(monthly_payment: int) -> int {
    let share = monthly_payment * (LATE_FEE_BPS_OF_PAYMENT as int) / (BPS_SCALE as int);
    if share >= MIN_LATE_FEE {
        share
    } else {
        MIN_LATE_FEE as int
    }
}

/// The start of the due period a loan is currently in: one scheduling month
/// before the next due date, floored at the beginning of time.
pub open spec fn period_start_of(m: LoanModel) -> int {
    let due = next_due_of(m);
    if due >= NANOS_PER_MONTH {
        due - NANOS_PER_MONTH
    } else {
        0
    }
}

/// A late-fee record for this loan already sits in the current due period.
pub open spec fn has_late_fee(pays: Seq<PaymentModel>, loan_id: Seq<char>, period_start: int)
    -> bool {
    exists|i: int|
        0 <= i < pays.len() && (#[trigger] pays[i]).payment_type is LateFee && pays[i].loan_id
            == loan_id && pays[i].created_at >= period_start
}

/// The model of the late-fee record the routine files for a loan.
pub open spec fn late_fee_payment_model(m: LoanModel, counter: nat, now: Timestamp)
    -> PaymentModel {
    PaymentModel {
        id: id_text(PAYMENT_PREFIX@, counter),
        loan_id: m.id,
        student_id: m.student_id,
        amount: spec_late_fee(m.monthly_payment as int) as u64,
        principal_portion: 0,
        interest_portion: 0,
        late_fee: spec_late_fee(m.monthly_payment as int) as u64,
        payment_type: PaymentType::LateFee,
        payment_method: PaymentMethodModel::ICP,
        status: PaymentStatus::Pending,
        created_at: now,
        processed_at: None,
        transaction_hash: None,
        notes: Seq::empty(),
    }
}

/// Idempotent late fees: once the routine's own record for this period is
/// among the payments, the scan finds it, so a second run within the same
/// period files nothing more.
pub proof fn lemma_late_fee_idempotent(
    pays: Seq<PaymentModel>,
    fee: PaymentModel,
    loan_id: Seq<char>,
    period_start: int,
)
    requires
        fee.payment_type is LateFee,
        fee.loan_id == loan_id,
        fee.created_at >= period_start,
    ensures
        has_late_fee(pays.push(fee), loan_id, period_start),
{
    assert(pays.push(fee)[pays.len() as int] == fee);
}

/// The forward order of the time-driven lifecycle: grace period, then
/// active, late, and finally default.
pub open spec fn status_rank(s: LoanStatus) -> int {
    match s {
        LoanStatus::InGracePeriod => 0,
        LoanStatus::Active => 1,
        LoanStatus::Late => 2,
        LoanStatus::Default => 3,
        _ => 4,
    }
}

/// Status monotonicity under time: for a loan with no payments made and a
/// balance still owed, advancing the clock only ever moves the computed
/// status forward along grace period, active, late, default, never backward.
pub proof fn lemma_status_monotone_in_time(m: LoanModel, t1: Timestamp, t2: Timestamp)
    requires
        m.payments_made == 0,
        m.current_balance > 0,
        t1 <= t2,
    ensures
        status_rank(loan_status_of(m, t1)) <= status_rank(loan_status_of(m, t2)),
{
    let due = next_due_of(m);
    if t1 > due {
        vstd::arithmetic::div_mod::lemma_div_is_ordered(t1 - due, t2 - due, NANOS_PER_DAY as int);
    }
    if t2 > due {
        vstd::arithmetic::div_mod::lemma_div_pos_is_pos(t2 - due, NANOS_PER_DAY as int);
    }
}

impl AutomationEngine {
    /// The lifecycle state a loan belongs in at `now`.
    pub fn determine_loan_status(loan: &Loan, now: Timestamp) -> (r: LoanStatus)
        ensures
            r == loan_status_of(loan@, now),
    {
        if now < loan.first_payment_due {
            return LoanStatus::InGracePeriod;
        }
        if loan.current_balance == 0 {
            return LoanStatus::PaidOff;
        }
        let next_due = loan.next_payment_due();
        if now > next_due {
            let days_overdue = (now - next_due) / NANOS_PER_DAY;
            if days_overdue > DEFAULT_AFTER_DAYS_OVERDUE {
                return LoanStatus::Default;
            }
            if days_overdue > 0 {
                return LoanStatus::Late;
            }
        }
        LoanStatus::Active
    }

    /// Split a payment of `payment_amount` against the loan's balance.
    pub fn calculate_payment_breakdown(loan: &Loan, payment_amount: Amount) -> (r:
        PaymentBreakdown)
        ensures
            r == spec_payment_breakdown(
                loan@.current_balance as int,
                loan@.interest_rate_bps as int,
                payment_amount as int,
            ),
    {
        proof {
            vstd::arithmetic::mul::lemma_mul_upper_bound(loan.current_balance as int,
                u64::MAX as int, loan.interest_rate_bps as int, u64::MAX as int);
            vstd::arithmetic::div_mod::lemma_div_pos_is_pos(
                (loan.current_balance as int) * (loan.interest_rate_bps as int),
                120_000,
            );
        }
        let interest_due_wide: u128 = (loan.current_balance as u128)
            * (loan.interest_rate_bps as u128) / 120_000;
        let after_interest: u64 = if (payment_amount as u128) >= interest_due_wide {
            (payment_amount as u128 - interest_due_wide) as u64
        } else {
            0
        };
        let principal = if after_interest <= loan.current_balance {
            after_interest
        } else {
            loan.current_balance
        };
        PaymentBreakdown {
            total_amount: payment_amount,
            principal_portion: principal,
            interest_portion: payment_amount - principal,
            late_fee: 0,
            remaining_balance: loan.current_balance - principal,
        }
    }

    /// File the late fee for the loan's current due period, unless one is
    /// already on record for that period.
    pub fn apply_late_fees(storage: &mut FinanceStorage, loan: &Loan, now: Timestamp) -> (r:
        StudiFiResult<()>)
        ensures
            r is Ok,
            has_late_fee(
                payment_views(old(storage).payments@),
                loan@.id,
                period_start_of(loan@),
            ) ==> *final(storage) == *old(storage),
            !has_late_fee(
                payment_views(old(storage).payments@),
                loan@.id,
                period_start_of(loan@),
            ) ==> ({
                let fee = late_fee_payment_model(
                    loan@,
                    old(storage).counters.payment_counter as nat,
                    now,
                );
                let at = find_payment(old(storage).payments@, fee.id);
                &&& payment_views(final(storage).payments@) == (if at >= 0 {
                    payment_views(old(storage).payments@).update(at, fee)
                } else {
                    payment_views(old(storage).payments@).push(fee)
                })
                &&& final(storage).counters.payment_counter == sat_add_u64(
                    old(storage).counters.payment_counter as int,
                    1,
                )
            }),
            final(storage).payments@.len() >= old(storage).payments@.len(),
            final(storage).loans == old(storage).loans,
            final(storage).treasury_config == old(storage).treasury_config,
            final(storage).loan_treasury == old(storage).loan_treasury,
            final(storage).scholarship_treasury == old(storage).scholarship_treasury,
            final(storage).protocol_treasury == old(storage).protocol_treasury,
            final(storage).counters.loan_counter == old(storage).counters.loan_counter,
    {
        let next_due = loan.next_payment_due();
        let period_start = if next_due >= NANOS_PER_MONTH {
            next_due - NANOS_PER_MONTH
        } else {
            0
        };
        let n = storage.payments.len();
        let mut i: usize = 0;
        while i < n
            invariant
                i <= n == storage.payments@.len(),
                period_start == period_start_of(loan@),
                forall|j: int|
                    0 <= j < i ==> !((#[trigger] payment_views(storage.payments@)[j]).payment_type
                        is LateFee && payment_views(storage.payments@)[j].loan_id == loan@.id
                        && payment_views(storage.payments@)[j].created_at >= period_start),
            decreases n - i,
        {
            proof {
                lemma_payment_views(storage.payments@);
            }
            let p = &storage.payments[i];
            let is_fee = match p.payment_type {
                PaymentType::LateFee => true,
                _ => false,
            };
            if is_fee && str_eq(p.loan_id.as_str(), loan.id.as_str()) && p.created_at
                >= period_start {
                proof {
                    lemma_payment_views(storage.payments@);
                    let w = payment_views(storage.payments@)[i as int];
                    assert(w == storage.payments@[i as int]@);
                    assert(w.payment_type is LateFee);
                    assert(w.loan_id == loan@.id);
                    assert(w.created_at >= period_start_of(loan@));
                    assert(has_late_fee(
                        payment_views(storage.payments@),
                        loan@.id,
                        period_start_of(loan@),
                    ));
                }
                return Ok(());
            }
            i += 1;
        }
        proof {
            lemma_payment_views(storage.payments@);
            assert(!has_late_fee(
                payment_views(storage.payments@),
                loan@.id,
                period_start_of(loan@),
            ));
        }
        let share: u64 = ((loan.monthly_payment as u128) * (LATE_FEE_BPS_OF_PAYMENT as u128) / (
        BPS_SCALE as u128)) as u64;
        let late_fee = if share >= MIN_LATE_FEE {
            share
        } else {
            MIN_LATE_FEE
        };
        proof {
            vstd::arithmetic::mul::lemma_mul_upper_bound(loan.monthly_payment as int,
                u64::MAX as int, LATE_FEE_BPS_OF_PAYMENT as int, LATE_FEE_BPS_OF_PAYMENT as int);
            vstd::arithmetic::div_mod::lemma_div_is_ordered(
                (loan.monthly_payment as int) * (LATE_FEE_BPS_OF_PAYMENT as int),
                (u64::MAX as int) * (LATE_FEE_BPS_OF_PAYMENT as int),
                BPS_SCALE as int,
            );
        }
        let payment_id = storage.get_next_payment_id();
        let fee_payment = Payment::new(
            payment_id.clone(),
            loan.id.clone(),
            loan.student_id.clone(),
            late_fee,
            0,
            0,
            late_fee,
            PaymentType::LateFee,
            PaymentMethod::ICP,
            now,
        );
        let ghost pre_payments = storage.payments@;
        storage.insert_payment(payment_id, fee_payment);
        proof {
            let fee = late_fee_payment_model(
                loan@,
                old(storage).counters.payment_counter as nat,
                now,
            );
            let at = find_payment(pre_payments, fee.id);
            lemma_payment_views(pre_payments);
            lemma_payment_views(storage.payments@);
            crate::storage::lemma_find_payment(pre_payments, fee.id);
            assert(fee_payment@ == fee);
            if at >= 0 {
                assert(payment_views(storage.payments@) =~= payment_views(pre_payments).update(
                    at,
                    fee,
                ));
            } else {
                assert(payment_views(storage.payments@) =~= payment_views(pre_payments).push(fee));
            }
        }
        Ok(())
    }
}

/// What an early payoff would cost and save.
#[derive(Clone, Copy, Debug, PartialEq, Eq, Structural)]
pub struct EarlyPayoffInfo {
    pub remaining_balance: Amount,
    pub prepayment_penalty: Amount,
    pub total_payoff_amount: Amount,
    pub interest_savings: Amount,
    pub is_eligible: bool,
}

/// The loan carries the tag that waives the prepayment penalty.
pub open spec fn has_no_penalty_tag(m: LoanModel) -> bool {
    exists|i: int|
        0 <= i < m.special_conditions.len() && m.special_conditions[i]
            == "no_prepayment_penalty"@
}

/// The prepayment penalty: a share of the remaining balance, waived for
/// loans tagged penalty-free.
pub open spec fn spec_prepayment_penalty(m: LoanModel) -> int {
    if has_no_penalty_tag(m) {
        0
    } else {
        (m.current_balance as int) * (PREPAYMENT_PENALTY_BPS as int) / (BPS_SCALE as int)
    }
}

/// A notice the scheduler asks the notification collaborator to send.
#[derive(Clone, Copy, Debug, PartialEq, Eq, Structural)]
pub enum NotificationKind {
    PaymentReminder,
    UrgentNotice,
    FinalNotice,
}

/// One notification the scheduler decided on: who, about which loan, and
/// which notice. Sending is the caller's job and must not stall the sweep.
#[derive(Debug)]
pub struct NotificationIntent {
    pub student_id: String,
    pub loan_id: String,
    pub kind: NotificationKind,
}

/// The mathematical value of a `NotificationIntent`.
pub struct NotificationModel {
    pub student_id: Seq<char>,
    pub loan_id: Seq<char>,
    pub kind: NotificationKind,
}

impl View for NotificationIntent {
    type V = NotificationModel;

    open spec fn view(&self) -> NotificationModel {
        NotificationModel { student_id: self.student_id@, loan_id: self.loan_id@, kind: self.kind }
    }
}

impl Clone for NotificationIntent {
    /// A clone carries the same mathematical value.
    fn clone(&self) -> (r: NotificationIntent)
        ensures
            r@ == self@,
    {
        NotificationIntent {
            student_id: self.student_id.clone(),
            loan_id: self.loan_id.clone(),
            kind: self.kind,
        }
    }
}

/// The views of a sequence of notification intents.
pub open spec fn notice_views(s: Seq<NotificationIntent>) -> Seq<NotificationModel> {
    s.map_values(|n: NotificationIntent| n@)
}

/// The pointwise reading of `notice_views`.
pub proof fn lemma_notice_views(s: Seq<NotificationIntent>)
    ensures
        notice_views(s).len() == s.len(),
        forall|j: int| 0 <= j < s.len() ==> #[trigger] notice_views(s)[j] == s[j]@,
{
}

/// The escalating notice owed for a loan so many days overdue: an urgent
/// notice in the second month, a final notice in the third; the first week
/// is left to the reminder pass and the second to the late-fee pass.
pub open spec fn escalation_kind(days: int) -> Option<NotificationKind> {
    if 31 <= days <= 60 {
        Some(NotificationKind::UrgentNotice)
    } else if 61 <= days <= 90 {
        Some(NotificationKind::FinalNotice)
    } else {
        None
    }
}

/// The escalation notices owed for a list of loans, in order, by how many
/// days each is past its due date.
pub open spec fn escalation_notices(ms: Seq<LoanModel>, now: Timestamp) -> Seq<NotificationModel>
    decreases ms.len(),
{
    if ms.len() == 0 {
        Seq::empty()
    } else {
        escalation_notices(ms.drop_last(), now) + (match escalation_kind(
            overdue_days_of(ms.last(), now),
        ) {
            Some(kind) => seq![
                NotificationModel {
                    student_id: ms.last().student_id,
                    loan_id: ms.last().id,
                    kind,
                },
            ],
            None => Seq::empty(),
        })
    }
}

/// A reminder is owed when the next payment falls due within the reminder
/// window but is not yet past due.
pub open spec fn reminder_due(m: LoanModel, now: Timestamp) -> bool {
    next_due_of(m) > now && next_due_of(m) - now <= (PAYMENT_REMINDER_DAYS as int) * (
    NANOS_PER_DAY as int)
}

/// The payment reminders owed for a list of loans, in order.
pub open spec fn reminder_notices(ms: Seq<LoanModel>, now: Timestamp) -> Seq<NotificationModel>
    decreases ms.len(),
{
    if ms.len() == 0 {
        Seq::empty()
    } else {
        reminder_notices(ms.drop_last(), now) + (if reminder_due(ms.last(), now) {
            seq![
                NotificationModel {
                    student_id: ms.last().student_id,
                    loan_id: ms.last().id,
                    kind: NotificationKind::PaymentReminder,
                },
            ]
        } else {
            Seq::empty()
        })
    }
}

/// A loan after the status sweep: a swept loan whose computed state differs
/// moves there and is stamped; everything else is untouched.
pub open spec fn sweep_loan_model(m: LoanModel, now: Timestamp) -> LoanModel {
    if (m.status is Active || m.status is Late) && loan_status_of(m, now) != m.status {
        LoanModel { status: loan_status_of(m, now), last_payment_date: Some(now), ..m }
    } else {
        m
    }
}

/// Every loan of a list after the status sweep.
pub open spec fn sweep_models(ms: Seq<LoanModel>, now: Timestamp) -> Seq<LoanModel> {
    ms.map_values(|m: LoanModel| sweep_loan_model(m, now))
}

/// The pooled treasury after writing off every balance that the sweep moves
/// into default, in storage order.
pub open spec fn apply_defaults(
    c: crate::loans::TreasuryConfig,
    ms: Seq<LoanModel>,
    now: Timestamp,
) -> crate::loans::TreasuryConfig
    decreases ms.len(),
{
    if ms.len() == 0 {
        c
    } else {
        let c1 = apply_defaults(c, ms.drop_last(), now);
        let m = ms.last();
        if (m.status is Active || m.status is Late) && loan_status_of(m, now) != m.status
            && loan_status_of(m, now) is Default {
            crate::loans::TreasuryConfig {
                reserved_funds: if c1.reserved_funds >= m.current_balance {
                    (c1.reserved_funds - m.current_balance) as u64
                } else {
                    0
                },
                total_funds: if c1.total_funds >= m.current_balance {
                    (c1.total_funds - m.current_balance) as u64
                } else {
                    0
                },
                ..c1
            }
        } else {
            c1
        }
    }
}

/// A loan after one day of interest accrual: the balance grows by the daily
/// rate, compounding, and the record is stamped.
pub open spec fn accrued_model(m: LoanModel, now: Timestamp) -> LoanModel {
    LoanModel {
        current_balance: sat_add_u64(
            m.current_balance as int,
            (m.current_balance as int) * (m.interest_rate_bps as int) / 3_650_000,
        ) as u64,
        last_payment_date: Some(now),
        ..m
    }
}

impl AutomationEngine {
    /// What paying the loan off today would cost: the balance plus the
    /// prepayment penalty, and the interest the borrower saves.
    pub fn check_early_payoff_eligibility(loan: &Loan) -> (r: EarlyPayoffInfo)
        ensures
            r.remaining_balance == loan@.current_balance,
            r.prepayment_penalty == spec_prepayment_penalty(loan@),
            r.total_payoff_amount == sat_add_u64(
                loan@.current_balance as int,
                spec_prepayment_penalty(loan@),
            ),
            r.interest_savings == (if loan.spec_total_interest()
                >= loan.spec_total_interest_paid() {
                loan.spec_total_interest() - loan.spec_total_interest_paid()
            } else {
                0
            }),
            r.is_eligible,
    {
        let n = loan.special_conditions.len();
        let mut tagged = false;
        let mut i: usize = 0;
        while i < n
            invariant
                i <= n == loan.special_conditions@.len(),
                tagged == exists|j: int|
                    0 <= j < i && loan.special_conditions@[j]@ == "no_prepayment_penalty"@,
            decreases n - i,
        {
            if str_eq(loan.special_conditions[i].as_str(), "no_prepayment_penalty") {
                tagged = true;
            }
            i += 1;
        }
        proof {
            let models = loan@.special_conditions;
            assert(models == loan.special_conditions@.map_values(|s: String| s@));
            assert(models.len() == n);
            assert forall|j: int| 0 <= j < n implies models[j] == loan.special_conditions@[j]@ by {
                assert(loan.special_conditions@.map_values(|s: String| s@)[j]
                    == loan.special_conditions@[j]@);
            }
            if tagged {
                let j = choose|j: int|
                    0 <= j < n && loan.special_conditions@[j]@ == "no_prepayment_penalty"@;
                assert(models[j] == "no_prepayment_penalty"@);
                assert(has_no_penalty_tag(loan@));
            } else {
                if has_no_penalty_tag(loan@) {
                    let j = choose|j: int|
                        0 <= j < models.len() && models[j] == "no_prepayment_penalty"@;
                    assert(loan.special_conditions@[j]@ == "no_prepayment_penalty"@);
                    assert(false);
                }
            }
        }
        let prepayment_penalty: u64 = if tagged {
            0
        } else {
            proof {
                vstd::arithmetic::mul::lemma_mul_upper_bound(loan.current_balance as int,
                    u64::MAX as int, PREPAYMENT_PENALTY_BPS as int, PREPAYMENT_PENALTY_BPS as int);
                vstd::arithmetic::div_mod::lemma_div_is_ordered(
                    (loan.current_balance as int) * (PREPAYMENT_PENALTY_BPS as int),
                    (u64::MAX as int) * (PREPAYMENT_PENALTY_BPS as int),
                    BPS_SCALE as int,
                );
            }
            ((loan.current_balance as u128) * (PREPAYMENT_PENALTY_BPS as u128) / (
            BPS_SCALE as u128)) as u64
        };
        let total_payoff_amount = loan.current_balance.saturating_add(prepayment_penalty);
        let total_interest = loan.calculate_total_interest();
        let paid = loan.total_interest_paid();
        let interest_savings = if total_interest >= paid {
            total_interest - paid
        } else {
            0
        };
        EarlyPayoffInfo {
            remaining_balance: loan.current_balance,
            prepayment_penalty,
            total_payoff_amount,
            interest_savings,
            is_eligible: true,
        }
    }
}

impl AutomationEngine {
    /// Recompute the status of every active or late loan and apply the
    /// transition's side effects: a new default is written off the pooled
    /// treasury, and a loan turning late is charged its period's late fee.
    pub fn update_loan_statuses(storage: &mut FinanceStorage, now: Timestamp) -> (r:
        StudiFiResult<()>)
        ensures
            r is Ok,
            final(storage).loans@.len() == old(storage).loans@.len(),
            forall|j: int|
                0 <= j < old(storage).loans@.len() ==> final(storage).loans@[j]@
                    == sweep_loan_model(#[trigger] old(storage).loans@[j]@, now),
            final(storage).treasury_config == apply_defaults(
                old(storage).treasury_config,
                crate::storage::loan_views(old(storage).loans@),
                now,
            ),
            final(storage).loan_treasury == old(storage).loan_treasury,
            final(storage).scholarship_treasury == old(storage).scholarship_treasury,
            final(storage).protocol_treasury == old(storage).protocol_treasury,
            final(storage).counters.loan_counter == old(storage).counters.loan_counter,
            final(storage).payments@.len() >= old(storage).payments@.len(),
    {
        let n = storage.loans.len();
        let mut j: usize = 0;
        while j < n
            invariant
                j <= n == storage.loans@.len() == old(storage).loans@.len(),
                forall|k: int|
                    0 <= k < j ==> storage.loans@[k]@ == sweep_loan_model(
                        #[trigger] old(storage).loans@[k]@,
                        now,
                    ),
                forall|k: int| j <= k < n ==> storage.loans@[k] == old(storage).loans@[k],
                storage.treasury_config == apply_defaults(
                    old(storage).treasury_config,
                    crate::storage::loan_views(old(storage).loans@.subrange(0, j as int)),
                    now,
                ),
                storage.loan_treasury == old(storage).loan_treasury,
                storage.scholarship_treasury == old(storage).scholarship_treasury,
                storage.protocol_treasury == old(storage).protocol_treasury,
                storage.counters.loan_counter == old(storage).counters.loan_counter,
                storage.payments@.len() >= old(storage).payments@.len(),
            decreases n - j,
        {
            let ghost pre_models = crate::storage::loan_views(
                old(storage).loans@.subrange(0, j as int),
            );
            let ghost m = old(storage).loans@[j as int]@;
            proof {
                crate::storage::lemma_loan_views(old(storage).loans@.subrange(0, j as int));
                crate::storage::lemma_loan_views(old(storage).loans@.subrange(0, j + 1 as int));
                assert(crate::storage::loan_views(old(storage).loans@.subrange(0, j + 1 as int))
                    =~= pre_models.push(m));
                assert(pre_models.push(m).drop_last() =~= pre_models);
            }
            let mut updated = storage.loans[j].clone();
            if updated.status.is_swept() {
                let new_status = Self::determine_loan_status(&updated, now);
                let changed = match (updated.status, new_status) {
                    (LoanStatus::Active, LoanStatus::Active) => false,
                    (LoanStatus::Late, LoanStatus::Late) => false,
                    _ => true,
                };
                if changed {
                    updated.status = new_status;
                    updated.last_payment_date = Some(now);
                    let effect_src = updated.clone();
                    storage.loans.set(j, updated);
                    match new_status {
                        LoanStatus::Default => {
                            match crate::treasury::TreasuryEngine::handle_loan_default(storage,
                                effect_src.current_balance) {
                                Ok(()) => {},
                                Err(_) => {},
                            }
                        },
                        LoanStatus::Late => {
                            let ghost before_fee = *storage;
                            match Self::apply_late_fees(storage, &effect_src, now) {
                                Ok(()) => {},
                                Err(_) => {},
                            }
                            proof {
                                lemma_payment_views(before_fee.payments@);
                                lemma_payment_views(storage.payments@);
                                assert(payment_views(before_fee.payments@).len()
                                    == before_fee.payments@.len());
                                assert(payment_views(storage.payments@).len()
                                    == storage.payments@.len());
                                assert(storage.payments@.len() >= before_fee.payments@.len());
                            }
                        },
                        _ => {},
                    }
                }
            }
            j += 1;
        }
        proof {
            assert(old(storage).loans@.subrange(0, n as int) =~= old(storage).loans@);
        }
        Ok(())
    }

    /// Walk the loans still being repaid, file the late fee for those in
    /// their second to fourth week past due, and return the urgent and final
    /// notices owed for the older ones.
    pub fn process_overdue_loans(storage: &mut FinanceStorage, now: Timestamp) -> (r:
        StudiFiResult<Vec<NotificationIntent>>)
        ensures
            r is Ok,
            r matches Ok(notices) ==> notice_views(notices@) == escalation_notices(
                crate::storage::swept_loans_of(
                    crate::storage::loan_views(old(storage).loans@),
                ),
                now,
            ),
            final(storage).loans == old(storage).loans,
            final(storage).treasury_config == old(storage).treasury_config,
            final(storage).loan_treasury == old(storage).loan_treasury,
            final(storage).scholarship_treasury == old(storage).scholarship_treasury,
            final(storage).protocol_treasury == old(storage).protocol_treasury,
            final(storage).counters.loan_counter == old(storage).counters.loan_counter,
            final(storage).payments@.len() >= old(storage).payments@.len(),
    {
        let overdue = storage.get_active_loans();
        let ghost overdue_models = crate::storage::swept_loans_of(
            crate::storage::loan_views(old(storage).loans@),
        );
        let n = overdue.len();
        let mut out: Vec<NotificationIntent> = Vec::new();
        let mut i: usize = 0;
        while i < n
            invariant
                i <= n == overdue@.len(),
                crate::storage::loan_views(overdue@) == overdue_models,
                notice_views(out@) == escalation_notices(
                    overdue_models.subrange(0, i as int),
                    now,
                ),
                storage.loans == old(storage).loans,
                storage.treasury_config == old(storage).treasury_config,
                storage.loan_treasury == old(storage).loan_treasury,
                storage.scholarship_treasury == old(storage).scholarship_treasury,
                storage.protocol_treasury == old(storage).protocol_treasury,
                storage.counters.loan_counter == old(storage).counters.loan_counter,
                storage.payments@.len() >= old(storage).payments@.len(),
            decreases n - i,
        {
            let ghost m = overdue_models[i as int];
            proof {
                crate::storage::lemma_loan_views(overdue@);
                assert(overdue@[i as int]@ == m);
                assert(overdue_models.subrange(0, i + 1 as int).drop_last()
                    =~= overdue_models.subrange(0, i as int));
                assert(overdue_models.subrange(0, i + 1 as int).last() == m);
            }
            let loan = &overdue[i];
            let due = loan.next_payment_due();
            let days: u64 = if now > due {
                (now - due) / NANOS_PER_DAY
            } else {
                0
            };
            if days >= 8 && days <= 30 {
                let ghost before_fee = *storage;
                match Self::apply_late_fees(storage, loan, now) {
                    Ok(()) => {},
                    Err(_) => {},
                }
                proof {
                    lemma_payment_views(before_fee.payments@);
                    lemma_payment_views(storage.payments@);
                }
            } else if days >= 31 && days <= 60 {
                let ghost prev = out@;
                out.push(
                    NotificationIntent {
                        student_id: loan.student_id.clone(),
                        loan_id: loan.id.clone(),
                        kind: NotificationKind::UrgentNotice,
                    },
                );
                proof {
                    lemma_notice_views(prev);
                    lemma_notice_views(out@);
                }
            } else if days >= 61 && days <= 90 {
                let ghost prev = out@;
                out.push(
                    NotificationIntent {
                        student_id: loan.student_id.clone(),
                        loan_id: loan.id.clone(),
                        kind: NotificationKind::FinalNotice,
                    },
                );
                proof {
                    lemma_notice_views(prev);
                    lemma_notice_views(out@);
                }
            }
            proof {
                assert(notice_views(out@) =~= escalation_notices(
                    overdue_models.subrange(0, i + 1 as int),
                    now,
                ));
            }
            i += 1;
        }
        proof {
            assert(overdue_models.subrange(0, n as int) =~= overdue_models);
        }
        Ok(out)
    }

    /// The payment reminders owed right now: one for every active or late
    /// loan whose next payment falls due within the reminder window.
    pub fn send_payment_reminders(storage: &FinanceStorage, now: Timestamp) -> (r: Vec<
        NotificationIntent,
    >)
        ensures
            notice_views(r@) == reminder_notices(
                crate::storage::swept_loans_of(crate::storage::loan_views(storage.loans@)),
                now,
            ),
    {
        let active = storage.get_active_loans();
        let ghost active_models = crate::storage::swept_loans_of(
            crate::storage::loan_views(storage.loans@),
        );
        let n = active.len();
        let mut out: Vec<NotificationIntent> = Vec::new();
        let mut i: usize = 0;
        while i < n
            invariant
                i <= n == active@.len(),
                crate::storage::loan_views(active@) == active_models,
                notice_views(out@) == reminder_notices(active_models.subrange(0, i as int), now),
            decreases n - i,
        {
            let ghost m = active_models[i as int];
            proof {
                crate::storage::lemma_loan_views(active@);
                assert(active@[i as int]@ == m);
                assert(active_models.subrange(0, i + 1 as int).drop_last()
                    =~= active_models.subrange(0, i as int));
                assert(active_models.subrange(0, i + 1 as int).last() == m);
            }
            let loan = &active[i];
            let next_due = loan.next_payment_due();
            let time_until_due = if next_due >= now {
                next_due - now
            } else {
                0
            };
            if time_until_due > 0 && time_until_due <= PAYMENT_REMINDER_DAYS * NANOS_PER_DAY {
                let ghost prev = out@;
                out.push(
                    NotificationIntent {
                        student_id: loan.student_id.clone(),
                        loan_id: loan.id.clone(),
                        kind: NotificationKind::PaymentReminder,
                    },
                );
                proof {
                    lemma_notice_views(prev);
                    lemma_notice_views(out@);
                }
            }
            proof {
                assert(notice_views(out@) =~= reminder_notices(
                    active_models.subrange(0, i + 1 as int),
                    now,
                ));
            }
            i += 1;
        }
        proof {
            assert(active_models.subrange(0, n as int) =~= active_models);
        }
        out
    }

    /// Accrue one day of interest on every active or late loan, compounding
    /// daily; every other record is untouched.
    pub fn update_interest_accruals(storage: &mut FinanceStorage, now: Timestamp) -> (r:
        StudiFiResult<()>)
        ensures
            r is Ok,
            final(storage).loans@.len() == old(storage).loans@.len(),
            forall|j: int|
                0 <= j < old(storage).loans@.len() ==> final(storage).loans@[j]@ == (if (
                #[trigger] old(storage).loans@[j]@).status is Active || old(
                    storage,
                ).loans@[j]@.status is Late {
                    accrued_model(old(storage).loans@[j]@, now)
                } else {
                    old(storage).loans@[j]@
                }),
            final(storage).payments == old(storage).payments,
            final(storage).treasury_config == old(storage).treasury_config,
            final(storage).loan_treasury == old(storage).loan_treasury,
            final(storage).scholarship_treasury == old(storage).scholarship_treasury,
            final(storage).protocol_treasury == old(storage).protocol_treasury,
            final(storage).counters == old(storage).counters,
    {
        let n = storage.loans.len();
        let mut j: usize = 0;
        while j < n
            invariant
                j <= n == storage.loans@.len() == old(storage).loans@.len(),
                forall|k: int|
                    0 <= k < j ==> storage.loans@[k]@ == (if (#[trigger] old(
                        storage,
                    ).loans@[k]@).status is Active || old(storage).loans@[k]@.status is Late {
                        accrued_model(old(storage).loans@[k]@, now)
                    } else {
                        old(storage).loans@[k]@
                    }),
                forall|k: int| j <= k < n ==> storage.loans@[k] == old(storage).loans@[k],
                storage.payments == old(storage).payments,
                storage.treasury_config == old(storage).treasury_config,
                storage.loan_treasury == old(storage).loan_treasury,
                storage.scholarship_treasury == old(storage).scholarship_treasury,
                storage.protocol_treasury == old(storage).protocol_treasury,
                storage.counters == old(storage).counters,
            decreases n - j,
        {
            let swept = storage.loans[j].status.is_swept();
            if swept {
                let mut updated = storage.loans[j].clone();
                proof {
                    vstd::arithmetic::mul::lemma_mul_upper_bound(updated.current_balance as int,
                        u64::MAX as int, updated.interest_rate_bps as int, u64::MAX as int);
                    vstd::arithmetic::div_mod::lemma_div_pos_is_pos(
                        (updated.current_balance as int) * (updated.interest_rate_bps as int),
                        3_650_000,
                    );
                }
                let daily_interest: u128 = (updated.current_balance as u128)
                    * (updated.interest_rate_bps as u128) / 3_650_000;
                let grown: u128 = updated.current_balance as u128 + daily_interest;
                updated.current_balance = if grown > u64::MAX as u128 {
                    u64::MAX
                } else {
                    grown as u64
                };
                updated.last_payment_date = Some(now);
                storage.loans.set(j, updated);
            }
            j += 1;
        }
        Ok(())
    }

    /// One run of the recurring maintenance cycle, in order: the status
    /// sweep with its side effects, overdue escalation, payment reminders,
    /// the treasury rebalance, and daily interest accrual. The notices owed
    /// are returned for the caller to send; a failure to send one must not
    /// stall the next run.
    pub fn run_scheduled_tasks(storage: &mut FinanceStorage, now: Timestamp) -> (r:
        StudiFiResult<Vec<NotificationIntent>>)
        ensures
            r is Ok,
            ({
                let swept = sweep_models(crate::storage::loan_views(old(storage).loans@), now);
                &&& (r matches Ok(notices) ==> notice_views(notices@) == escalation_notices(
                    crate::storage::swept_loans_of(swept),
                    now,
                ) + reminder_notices(crate::storage::swept_loans_of(swept), now))
                &&& final(storage).loans@.len() == old(storage).loans@.len()
                &&& (forall|j: int|
                    0 <= j < old(storage).loans@.len() ==> final(storage).loans@[j]@ == (if (
                    #[trigger] swept[j]).status is Active || swept[j].status is Late {
                        accrued_model(swept[j], now)
                    } else {
                        swept[j]
                    }))
                &&& ({
                    let rebalance_base = apply_defaults(
                        old(storage).treasury_config,
                        crate::storage::loan_views(old(storage).loans@),
                        now,
                    );
                    final(storage).treasury_config == (
                    if rebalance_base.auto_rebalance_enabled {
                        crate::treasury::spec_rebalanced(
                            rebalance_base,
                            crate::storage::sum_outstanding(swept),
                            now,
                        )
                    } else {
                        rebalance_base
                    })
                })
            }),
            final(storage).loan_treasury == old(storage).loan_treasury,
            final(storage).scholarship_treasury == old(storage).scholarship_treasury,
            final(storage).protocol_treasury == old(storage).protocol_treasury,
            final(storage).counters.loan_counter == old(storage).counters.loan_counter,
    {
        let ghost swept = sweep_models(crate::storage::loan_views(old(storage).loans@), now);
        match Self::update_loan_statuses(storage, now) {
            Ok(()) => {},
            Err(e) => {
                return Err(e);
            },
        }
        proof {
            crate::storage::lemma_loan_views(old(storage).loans@);
            crate::storage::lemma_loan_views(storage.loans@);
            assert(crate::storage::loan_views(storage.loans@) =~= swept);
        }
        let ghost mid = *storage;
        let mut notices = match Self::process_overdue_loans(storage, now) {
            Ok(v) => v,
            Err(e) => {
                return Err(e);
            },
        };
        let mut reminders = Self::send_payment_reminders(storage, now);
        let ghost notices_pre = notices@;
        let ghost reminders_pre = reminders@;
        notices.append(&mut reminders);
        proof {
            lemma_notice_views(notices_pre);
            lemma_notice_views(reminders_pre);
            lemma_notice_views(notices@);
            assert(notice_views(notices@) =~= notice_views(notices_pre) + notice_views(
                reminders_pre,
            ));
        }
        let ghost mid2 = *storage;
        match crate::treasury::TreasuryEngine::rebalance_treasury(storage, now) {
            Ok(()) => {},
            Err(e) => {
                return Err(e);
            },
        }
        match Self::update_interest_accruals(storage, now) {
            Ok(()) => {},
            Err(e) => {
                return Err(e);
            },
        }
        proof {
            crate::storage::lemma_loan_views(mid2.loans@);
            assert(crate::storage::loan_views(mid2.loans@) == swept);
            assert forall|j: int| 0 <= j < old(storage).loans@.len() implies storage.loans@[j]@
                == (if (#[trigger] swept[j]).status is Active || swept[j].status is Late {
                accrued_model(swept[j], now)
            } else {
                swept[j]
            }) by {
                assert(mid2.loans@[j]@ == crate::storage::loan_views(mid2.loans@)[j]);
            }
        }
        Ok(notices)
    }
}

} // verus!
