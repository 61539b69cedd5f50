use vstd::prelude::*;

use crate::errors::StudiFiError;
use crate::errors::StudiFiResult;
use crate::loans::Counters;
use crate::loans::Loan;
use crate::loans::LoanModel;
use crate::loans::LoanStatus;
use crate::loans::Payment;
use crate::loans::PaymentModel;
use crate::loans::PaymentStatus;
use crate::loans::TreasuryConfig;
use crate::loans::TreasuryStats;
use crate::loans::is_overdue_of;
use crate::loans::sat_add_u64;
use crate::text::id_text;
use crate::text::str_eq;
use crate::treasury::SeparateTreasuryConfig;
use crate::treasury::TreasuryType;
use crate::Timestamp;

verus! {

/// The views of a sequence of stored loans.
pub open spec fn loan_views(s: Seq<Loan>) -> Seq<LoanModel> {
    s.map_values(|l: Loan| l@)
}

/// The views of a sequence of stored payments.
pub open spec fn payment_views(s: Seq<Payment>) -> Seq<PaymentModel> {
    s.map_values(|p: Payment| p@)
}

/// The pointwise reading of `loan_views`.
pub proof fn lemma_loan_views(s: Seq<Loan>)
    ensures
        loan_views(s).len() == s.len(),
        forall|j: int| 0 <= j < s.len() ==> #[trigger] loan_views(s)[j] == s[j]@,
{
}

/// The pointwise reading of `payment_views`.
pub proof fn lemma_payment_views(s: Seq<Payment>)
    ensures
        payment_views(s).len() == s.len(),
        forall|j: int| 0 <= j < s.len() ==> #[trigger] payment_views(s)[j] == s[j]@,
{
}

/// The index of the first loan carrying `id`, or -1 when none does.
pub open spec fn find_loan(s: Seq<Loan>, id: Seq<char>) -> int
    decreases s.len(),
{
    if s.len() == 0 {
        -1
    } else if s.first()@.id == id {
        0
    } else {
        let r = find_loan(s.drop_first(), id);
        if r == -1 {
            -1
        } else {
            r + 1
        }
    }
}

/// The index of the first payment carrying `id`, or -1 when none does.
pub open spec fn find_payment(s: Seq<Payment>, id: Seq<char>) -> int
    decreases s.len(),
{
    if s.len() == 0 {
        -1
    } else if s.first()@.id == id {
        0
    } else {
        let r = find_payment(s.drop_first(), id);
        if r == -1 {
            -1
        } else {
            r + 1
        }
    }
}

pub proof fn lemma_find_loan(s: Seq<Loan>, id: Seq<char>)
    ensures
        -1 <= find_loan(s, id) < s.len(),
        find_loan(s, id) >= 0 ==> s[find_loan(s, id)]@.id == id,
        forall|j: int|
            0 <= j < s.len() && (j < find_loan(s, id) || find_loan(s, id) == -1) ==> s[j]@.id != id,
    decreases s.len(),
{
    if s.len() > 0 && s.first()@.id != id {
        let t = s.drop_first();
        lemma_find_loan(t, id);
        assert forall|j: int|
            0 <= j < s.len() && (j < find_loan(s, id) || find_loan(s, id) == -1) implies s[j]@.id
            != id by {
            if j >= 1 {
                assert(s[j] == t[j - 1]);
            }
        }
    }
}

pub proof fn lemma_find_payment(s: Seq<Payment>, id: Seq<char>)
    ensures
        -1 <= find_payment(s, id) < s.len(),
        find_payment(s, id) >= 0 ==> s[find_payment(s, id)]@.id == id,
        forall|j: int|
            0 <= j < s.len() && (j < find_payment(s, id) || find_payment(s, id) == -1) ==> s[j]@.id
                != id,
    decreases s.len(),
{
    if s.len() > 0 && s.first()@.id != id {
        let t = s.drop_first();
        lemma_find_payment(t, id);
        assert forall|j: int|
            0 <= j < s.len() && (j < find_payment(s, id) || find_payment(s, id) == -1) implies s[
                j
            ]@.id != id by {
            if j >= 1 {
                assert(s[j] == t[j - 1]);
            }
        }
    }
}

/// The loans of one borrower, in storage order.
pub open spec fn student_loans_of(s: Seq<LoanModel>, sid: Seq<char>) -> Seq<LoanModel>
    decreases s.len(),
{
    if s.len() == 0 {
        Seq::empty()
    } else if s.last().student_id == sid {
        student_loans_of(s.drop_last(), sid) + seq![s.last()]
    } else {
        student_loans_of(s.drop_last(), sid)
    }
}

/// The loans the automated sweep visits: active or late, in storage order.
pub open spec fn swept_loans_of(s: Seq<LoanModel>) -> Seq<LoanModel>
    decreases s.len(),
{
    if s.len() == 0 {
        Seq::empty()
    } else if s.last().status is Active || s.last().status is Late {
        swept_loans_of(s.drop_last()) + seq![s.last()]
    } else {
        swept_loans_of(s.drop_last())
    }
}

/// The loans overdue at `now`, in storage order.
pub open spec fn overdue_loans_of(s: Seq<LoanModel>, now: Timestamp) -> Seq<LoanModel>
    decreases s.len(),
{
    if s.len() == 0 {
        Seq::empty()
    } else if is_overdue_of(s.last(), now) {
        overdue_loans_of(s.drop_last(), now) + seq![s.last()]
    } else {
        overdue_loans_of(s.drop_last(), now)
    }
}

/// The payments made against one loan, in storage order.
pub open spec fn loan_payments_of(s: Seq<PaymentModel>, loan_id: Seq<char>) -> Seq<PaymentModel>
    decreases s.len(),
{
    if s.len() == 0 {
        Seq::empty()
    } else if s.last().loan_id == loan_id {
        loan_payments_of(s.drop_last(), loan_id) + seq![s.last()]
    } else {
        loan_payments_of(s.drop_last(), loan_id)
    }
}

/// The payments made by one borrower, in storage order.
pub open spec fn student_payments_of(s: Seq<PaymentModel>, sid: Seq<char>) -> Seq<PaymentModel>
    decreases s.len(),
{
    if s.len() == 0 {
        Seq::empty()
    } else if s.last().student_id == sid {
        student_payments_of(s.drop_last(), sid) + seq![s.last()]
    } else {
        student_payments_of(s.drop_last(), sid)
    }
}


/// Outstanding principal: the balances of the loans still being repaid
/// (active or late), summed with saturation.
pub open spec fn sum_outstanding(s: Seq<LoanModel>) -> int
    decreases s.len(),
{
    if s.len() == 0 {
        0
    } else {
        sat_add_u64(
            sum_outstanding(s.drop_last()),
            if s.last().status is Active || s.last().status is Late {
                s.last().current_balance as int
            } else {
                0
            },
        )
    }
}

/// Every original principal ever disbursed, summed with saturation.
pub open spec fn sum_disbursed(s: Seq<LoanModel>) -> int
    decreases s.len(),
{
    if s.len() == 0 {
        0
    } else {
        sat_add_u64(sum_disbursed(s.drop_last()), s.last().original_amount as int)
    }
}

/// The balances lost to defaulted loans, summed with saturation.
pub open spec fn sum_defaults(s: Seq<LoanModel>) -> int
    decreases s.len(),
{
    if s.len() == 0 {
        0
    } else {
        sat_add_u64(
            sum_defaults(s.drop_last()),
            if s.last().status is Default {
                s.last().current_balance as int
            } else {
                0
            },
        )
    }
}

/// How many loans are still being repaid (active or late).
pub open spec fn count_swept(s: Seq<LoanModel>) -> int
    decreases s.len(),
{
    if s.len() == 0 {
        0
    } else {
        count_swept(s.drop_last()) + if s.last().status is Active || s.last().status is Late {
            1int
        } else {
            0int
        }
    }
}

/// How many loans have defaulted.
pub open spec fn count_default(s: Seq<LoanModel>) -> int
    decreases s.len(),
{
    if s.len() == 0 {
        0
    } else {
        count_default(s.drop_last()) + if s.last().status is Default {
            1int
        } else {
            0int
        }
    }
}

/// The amounts of the completed payments, summed with saturation.
pub open spec fn sum_received(s: Seq<PaymentModel>) -> int
    decreases s.len(),
{
    if s.len() == 0 {
        0
    } else {
        sat_add_u64(
            sum_received(s.drop_last()),
            if s.last().status is Completed {
                s.last().amount as int
            } else {
                0
            },
        )
    }
}

/// The interest portions of the completed payments, summed with saturation.
pub open spec fn sum_interest(s: Seq<PaymentModel>) -> int
    decreases s.len(),
{
    if s.len() == 0 {
        0
    } else {
        sat_add_u64(
            sum_interest(s.drop_last()),
            if s.last().status is Completed {
                s.last().interest_portion as int
            } else {
                0
            },
        )
    }
}

/// The portfolio figures as one record, straight from the mathematical sums.
pub open spec fn spec_treasury_stats(s: FinanceStorage) -> TreasuryStats {
    TreasuryStats {
        total_loans_outstanding: sum_outstanding(loan_views(s.loans@)) as u64,
        total_loans_disbursed: sum_disbursed(loan_views(s.loans@)) as u64,
        total_payments_received: sum_received(payment_views(s.payments@)) as u64,
        total_interest_earned: sum_interest(payment_views(s.payments@)) as u64,
        total_defaults: sum_defaults(loan_views(s.loans@)) as u64,
        active_loan_count: (if count_swept(loan_views(s.loans@)) > u32::MAX {
            u32::MAX as int
        } else {
            count_swept(loan_views(s.loans@))
        }) as u32,
        default_rate_bps: (if s.loans@.len() > 0 {
            count_default(loan_views(s.loans@)) * 10_000 / (s.loans@.len() as int)
        } else {
            0
        }) as u64,
        average_loan_size: (if s.loans@.len() > 0 {
            sum_disbursed(loan_views(s.loans@)) / (s.loans@.len() as int)
        } else {
            0
        }) as u64,
        portfolio_yield_bps: (if sum_outstanding(loan_views(s.loans@)) > 0 {
            let y = sum_interest(payment_views(s.payments@)) * 10_000 / sum_outstanding(
                loan_views(s.loans@),
            );
            if y > u64::MAX {
                u64::MAX as int
            } else {
                y
            }
        } else {
            0
        }) as u64,
    }
}

/// The keyed state of the platform: loans and payments by identifier, the
/// treasuries, and the counters behind identifier generation.
pub struct FinanceStorage {
    pub loans: Vec<Loan>,
    pub payments: Vec<Payment>,
    pub treasury_config: TreasuryConfig,
    pub loan_treasury: Option<SeparateTreasuryConfig>,
    pub scholarship_treasury: Option<SeparateTreasuryConfig>,
    pub protocol_treasury: Option<SeparateTreasuryConfig>,
    pub counters: Counters,
}

/// Every stored treasury sits in the slot of its own purpose and is well
/// formed; the engine's operations keep it so.
pub open spec fn treasuries_wf(s: FinanceStorage) -> bool {
    &&& (s.loan_treasury matches Some(t) ==> t.treasury_type is Loan && t.wf())
    &&& (s.scholarship_treasury matches Some(t) ==> t.treasury_type is Scholarship && t.wf())
    &&& (s.protocol_treasury matches Some(t) ==> t.treasury_type is Protocol && t.wf())
}

/// The treasury record a storage holds for `t`, if any.
pub open spec fn treasury_slot(s: FinanceStorage, t: TreasuryType) -> Option<
    SeparateTreasuryConfig,
> {
    match t {
        TreasuryType::Loan => s.loan_treasury,
        TreasuryType::Scholarship => s.scholarship_treasury,
        TreasuryType::Protocol => s.protocol_treasury,
    }
}

impl FinanceStorage {
    /// An empty store: no loans, no payments, the default treasury, no
    /// separate treasuries yet, and counters at one.
    pub fn new() -> (r: FinanceStorage)
        ensures
            r.loans@.len() == 0,
            r.payments@.len() == 0,
            r.treasury_config.total_funds == 1_000_000_00,
            r.treasury_config.available_funds == 800_000_00,
            r.treasury_config.reserved_funds == 200_000_00,
            r.treasury_config.auto_rebalance_enabled,
            r.loan_treasury is None,
            r.scholarship_treasury is None,
            r.protocol_treasury is None,
            r.counters.loan_counter == 1,
            r.counters.payment_counter == 1,
    {
        FinanceStorage {
            loans: Vec::new(),
            payments: Vec::new(),
            treasury_config: TreasuryConfig::default(),
            loan_treasury: None,
            scholarship_treasury: None,
            protocol_treasury: None,
            counters: Counters::default(),
        }
    }

    /// The position of the loan carrying `id`.
    fn loan_position(&self, id: &str) -> (r: Option<usize>)
        ensures
            r is Some <==> find_loan(self.loans@, id@) >= 0,
            r matches Some(i) ==> i == find_loan(self.loans@, id@),
    {
        proof {
            lemma_find_loan(self.loans@, id@);
        }
        let n = self.loans.len();
        let mut i: usize = 0;
        while i < n
            invariant
                i <= n == self.loans@.len(),
                forall|j: int| 0 <= j < i ==> self.loans@[j]@.id != id@,
                find_loan(self.loans@, id@) >= 0 ==> find_loan(self.loans@, id@) >= i,
                -1 <= find_loan(self.loans@, id@) < self.loans@.len(),
                find_loan(self.loans@, id@) >= 0 ==> self.loans@[find_loan(self.loans@, id@)]@.id
                    == id@,
                forall|j: int|
                    0 <= j < self.loans@.len() && (j < find_loan(self.loans@, id@) || find_loan(
                        self.loans@,
                        id@,
                    ) == -1) ==> self.loans@[j]@.id != id@,
            decreases n - i,
        {
            if str_eq(self.loans[i].id.as_str(), id) {
                return Some(i);
            }
            i += 1;
        }
        None
    }

    /// The position of the payment carrying `id`.
    fn payment_position(&self, id: &str) -> (r: Option<usize>)
        ensures
            r is Some <==> find_payment(self.payments@, id@) >= 0,
            r matches Some(i) ==> i == find_payment(self.payments@, id@),
    {
        proof {
            lemma_find_payment(self.payments@, id@);
        }
        let n = self.payments.len();
        let mut i: usize = 0;
        while i < n
            invariant
                i <= n == self.payments@.len(),
                forall|j: int| 0 <= j < i ==> self.payments@[j]@.id != id@,
                find_payment(self.payments@, id@) >= 0 ==> find_payment(self.payments@, id@) >= i,
                -1 <= find_payment(self.payments@, id@) < self.payments@.len(),
                find_payment(self.payments@, id@) >= 0 ==> self.payments@[find_payment(
                    self.payments@,
                    id@,
                )]@.id == id@,
                forall|j: int|
                    0 <= j < self.payments@.len() && (j < find_payment(self.payments@, id@)
                        || find_payment(self.payments@, id@) == -1) ==> self.payments@[j]@.id
                        != id@,
            decreases n - i,
        {
            if str_eq(self.payments[i].id.as_str(), id) {
                return Some(i);
            }
            i += 1;
        }
        None
    }

    /// The stored loan carrying `id`, if any.
    pub fn get_loan(&self, id: &str) -> (r: Option<&Loan>)
        ensures
            r is Some <==> find_loan(self.loans@, id@) >= 0,
            r matches Some(l) ==> *l == self.loans@[find_loan(self.loans@, id@)] && l@.id == id@,
    {
        proof {
            lemma_find_loan(self.loans@, id@);
        }
        match self.loan_position(id) {
            Some(i) => Some(&self.loans[i]),
            None => None,
        }
    }

    /// File a loan under `id`: replace the record that carries the
    /// identifier, or append a new one.
    pub fn insert_loan(&mut self, id: String, loan: Loan)
        requires
            id@ == loan.id@,
        ensures
            ({
                let at = find_loan(old(self).loans@, id@);
                if at >= 0 {
                    final(self).loans@ == old(self).loans@.update(at, loan)
                } else {
                    final(self).loans@ == old(self).loans@.push(loan)
                }
            }),
            final(self).payments == old(self).payments,
            final(self).treasury_config == old(self).treasury_config,
            final(self).loan_treasury == old(self).loan_treasury,
            final(self).scholarship_treasury == old(self).scholarship_treasury,
            final(self).protocol_treasury == old(self).protocol_treasury,
            final(self).counters == old(self).counters,
    {
        proof {
            lemma_find_loan(self.loans@, id@);
        }
        match self.loan_position(id.as_str()) {
            Some(i) => {
                self.loans.set(i, loan);
            },
            None => {
                self.loans.push(loan);
            },
        }
    }

    /// Replace the loan carrying `id`; a missing identifier is reported and
    /// changes nothing.
    pub fn update_loan(&mut self, id: String, loan: Loan) -> (r: StudiFiResult<Loan>)
        requires
            id@ == loan.id@,
        ensures
            r is Ok <==> find_loan(old(self).loans@, id@) >= 0,
            r is Ok ==> final(self).loans@ == old(self).loans@.update(
                find_loan(old(self).loans@, id@),
                loan,
            ),
            r matches Ok(l) ==> l@ == loan@,
            r is Err ==> *final(self) == *old(self),
            r matches Err(e) ==> e is NotFound,
            final(self).payments == old(self).payments,
            final(self).treasury_config == old(self).treasury_config,
            final(self).loan_treasury == old(self).loan_treasury,
            final(self).scholarship_treasury == old(self).scholarship_treasury,
            final(self).protocol_treasury == old(self).protocol_treasury,
            final(self).counters == old(self).counters,
    {
        proof {
            lemma_find_loan(self.loans@, id@);
        }
        match self.loan_position(id.as_str()) {
            Some(i) => {
                let copy = loan.clone();
                self.loans.set(i, loan);
                Ok(copy)
            },
            None => Err(StudiFiError::NotFound("Loan not found".to_owned())),
        }
    }

    /// The stored payment carrying `id`, if any.
    pub fn get_payment(&self, id: &str) -> (r: Option<&Payment>)
        ensures
            r is Some <==> find_payment(self.payments@, id@) >= 0,
            r matches Some(p) ==> *p == self.payments@[find_payment(self.payments@, id@)]
                && p@.id == id@,
    {
        proof {
            lemma_find_payment(self.payments@, id@);
        }
        match self.payment_position(id) {
            Some(i) => Some(&self.payments[i]),
            None => None,
        }
    }

    /// File a payment under `id`: replace the record that carries the
    /// identifier, or append a new one.
    pub fn insert_payment(&mut self, id: String, payment: Payment)
        requires
            id@ == payment.id@,
        ensures
            ({
                let at = find_payment(old(self).payments@, id@);
                if at >= 0 {
                    final(self).payments@ == old(self).payments@.update(at, payment)
                } else {
                    final(self).payments@ == old(self).payments@.push(payment)
                }
            }),
            final(self).loans == old(self).loans,
            final(self).treasury_config == old(self).treasury_config,
            final(self).loan_treasury == old(self).loan_treasury,
            final(self).scholarship_treasury == old(self).scholarship_treasury,
            final(self).protocol_treasury == old(self).protocol_treasury,
            final(self).counters == old(self).counters,
    {
        proof {
            lemma_find_payment(self.payments@, id@);
        }
        match self.payment_position(id.as_str()) {
            Some(i) => {
                self.payments.set(i, payment);
            },
            None => {
                self.payments.push(payment);
            },
        }
    }

    /// Replace the payment carrying `id`; a missing identifier is reported
    /// and changes nothing.
    pub fn update_payment(&mut self, id: String, payment: Payment) -> (r: StudiFiResult<Payment>)
        requires
            id@ == payment.id@,
        ensures
            r is Ok <==> find_payment(old(self).payments@, id@) >= 0,
            r is Ok ==> final(self).payments@ == old(self).payments@.update(
                find_payment(old(self).payments@, id@),
                payment,
            ),
            r matches Ok(p) ==> p@ == payment@,
            r is Err ==> *final(self) == *old(self),
            r matches Err(e) ==> e is NotFound,
            final(self).loans == old(self).loans,
            final(self).treasury_config == old(self).treasury_config,
            final(self).loan_treasury == old(self).loan_treasury,
            final(self).scholarship_treasury == old(self).scholarship_treasury,
            final(self).protocol_treasury == old(self).protocol_treasury,
            final(self).counters == old(self).counters,
    {
        proof {
            lemma_find_payment(self.payments@, id@);
        }
        match self.payment_position(id.as_str()) {
            Some(i) => {
                let copy = payment.clone();
                self.payments.set(i, payment);
                Ok(copy)
            },
            None => Err(StudiFiError::NotFound("Payment not found".to_owned())),
        }
    }

    /// Copies of every stored loan, in storage order.
    pub fn get_all_loans(&self) -> (r: Vec<Loan>)
        ensures
            loan_views(r@) == loan_views(self.loans@),
    {
        let n = self.loans.len();
        let mut out: Vec<Loan> = Vec::new();
        let mut i: usize = 0;
        while i < n
            invariant
                i <= n == self.loans@.len(),
                loan_views(out@) == loan_views(self.loans@.subrange(0, i as int)),
            decreases n - i,
        {
            let ghost pre_models = loan_views(self.loans@.subrange(0, i as int));
            let ghost m = self.loans@[i as int]@;
            proof {
                lemma_loan_views(self.loans@.subrange(0, i as int));
                lemma_loan_views(self.loans@.subrange(0, i + 1 as int));
                assert(loan_views(self.loans@.subrange(0, i + 1 as int)) =~= pre_models.push(m));
            }
            let ghost prev = out@;
            let item = self.loans[i].clone();
            out.push(item);
            proof {
                lemma_loan_views(prev);
                lemma_loan_views(out@);
                assert(loan_views(out@) =~= loan_views(self.loans@.subrange(0, i + 1 as int)));
            }
            i += 1;
        }
        proof {
            assert(self.loans@.subrange(0, n as int) =~= self.loans@);
        }
        out
    }

    /// Copies of the loans of one borrower, in storage order.
    pub fn get_loans_by_student(&self, student_id: &str) -> (r: Vec<Loan>)
        ensures
            loan_views(r@) == student_loans_of(loan_views(self.loans@), student_id@),
    {
        let n = self.loans.len();
        let mut out: Vec<Loan> = Vec::new();
        let mut i: usize = 0;
        while i < n
            invariant
                i <= n == self.loans@.len(),
                loan_views(out@) == student_loans_of(loan_views(self.loans@.subrange(0, i as int)), student_id@),
            decreases n - i,
        {
            let ghost pre_models = loan_views(self.loans@.subrange(0, i as int));
            let ghost m = self.loans@[i as int]@;
            proof {
                lemma_loan_views(self.loans@.subrange(0, i as int));
                lemma_loan_views(self.loans@.subrange(0, i + 1 as int));
                assert(loan_views(self.loans@.subrange(0, i + 1 as int)) =~= pre_models.push(m));
                assert(pre_models.push(m).drop_last() =~= pre_models);
            }
            if str_eq(self.loans[i].student_id.as_str(), student_id) {
                proof {
                    assert(m.student_id == student_id@);
                }
                let ghost prev = out@;
                let item = self.loans[i].clone();
                out.push(item);
                proof {
                    lemma_loan_views(prev);
                    lemma_loan_views(out@);
                    assert(loan_views(out@) =~= loan_views(prev).push(m));
                }
            }
            i += 1;
        }
        proof {
            assert(self.loans@.subrange(0, n as int) =~= self.loans@);
        }
        out
    }

    /// Copies of the loans the automated sweep visits: active or late.
    pub fn get_active_loans(&self) -> (r: Vec<Loan>)
        ensures
            loan_views(r@) == swept_loans_of(loan_views(self.loans@)),
    {
        let n = self.loans.len();
        let mut out: Vec<Loan> = Vec::new();
        let mut i: usize = 0;
        while i < n
            invariant
                i <= n == self.loans@.len(),
                loan_views(out@) == swept_loans_of(loan_views(self.loans@.subrange(0, i as int))),
            decreases n - i,
        {
            let ghost pre_models = loan_views(self.loans@.subrange(0, i as int));
            let ghost m = self.loans@[i as int]@;
            proof {
                lemma_loan_views(self.loans@.subrange(0, i as int));
                lemma_loan_views(self.loans@.subrange(0, i + 1 as int));
                assert(loan_views(self.loans@.subrange(0, i + 1 as int)) =~= pre_models.push(m));
                assert(pre_models.push(m).drop_last() =~= pre_models);
            }
            if self.loans[i].status.is_swept() {
                proof {
                    assert(m.status is Active || m.status is Late);
                }
                let ghost prev = out@;
                let item = self.loans[i].clone();
                out.push(item);
                proof {
                    lemma_loan_views(prev);
                    lemma_loan_views(out@);
                    assert(loan_views(out@) =~= loan_views(prev).push(m));
                }
            }
            i += 1;
        }
        proof {
            assert(self.loans@.subrange(0, n as int) =~= self.loans@);
        }
        out
    }

    /// Copies of the loans overdue at `now`.
    pub fn get_overdue_loans(&self, now: Timestamp) -> (r: Vec<Loan>)
        ensures
            loan_views(r@) == overdue_loans_of(loan_views(self.loans@), now),
    {
        let n = self.loans.len();
        let mut out: Vec<Loan> = Vec::new();
        let mut i: usize = 0;
        while i < n
            invariant
                i <= n == self.loans@.len(),
                loan_views(out@) == overdue_loans_of(loan_views(self.loans@.subrange(0, i as int)), now),
            decreases n - i,
        {
            let ghost pre_models = loan_views(self.loans@.subrange(0, i as int));
            let ghost m = self.loans@[i as int]@;
            proof {
                lemma_loan_views(self.loans@.subrange(0, i as int));
                lemma_loan_views(self.loans@.subrange(0, i + 1 as int));
                assert(loan_views(self.loans@.subrange(0, i + 1 as int)) =~= pre_models.push(m));
                assert(pre_models.push(m).drop_last() =~= pre_models);
            }
            if self.loans[i].is_overdue(now) {
                proof {
                    assert(is_overdue_of(m, now));
                }
                let ghost prev = out@;
                let item = self.loans[i].clone();
                out.push(item);
                proof {
                    lemma_loan_views(prev);
                    lemma_loan_views(out@);
                    assert(loan_views(out@) =~= loan_views(prev).push(m));
                }
            }
            i += 1;
        }
        proof {
            assert(self.loans@.subrange(0, n as int) =~= self.loans@);
        }
        out
    }

    /// Copies of the payments made against one loan.
    pub fn get_payments_by_loan(&self, loan_id: &str) -> (r: Vec<Payment>)
        ensures
            payment_views(r@) == loan_payments_of(payment_views(self.payments@), loan_id@),
    {
        let n = self.payments.len();
        let mut out: Vec<Payment> = Vec::new();
        let mut i: usize = 0;
        while i < n
            invariant
                i <= n == self.payments@.len(),
                payment_views(out@) == loan_payments_of(
                    payment_views(self.payments@.subrange(0, i as int)),
                    loan_id@,
                ),
            decreases n - i,
        {
            let ghost pre_models = payment_views(self.payments@.subrange(0, i as int));
            let ghost m = self.payments@[i as int]@;
            proof {
                lemma_payment_views(self.payments@.subrange(0, i as int));
                lemma_payment_views(self.payments@.subrange(0, i + 1 as int));
                assert(payment_views(self.payments@.subrange(0, i + 1 as int)) =~= pre_models.push(m));
                assert(pre_models.push(m).drop_last() =~= pre_models);
            }
            if str_eq(self.payments[i].loan_id.as_str(), loan_id) {
                proof {
                    assert(m.loan_id == loan_id@);
                }
                let ghost prev = out@;
                let item = self.payments[i].clone();
                out.push(item);
                proof {
                    lemma_payment_views(prev);
                    lemma_payment_views(out@);
                    assert(payment_views(out@) =~= payment_views(prev).push(m));
                }
            }
            i += 1;
        }
        proof {
            assert(self.payments@.subrange(0, n as int) =~= self.payments@);
        }
        out
    }

    /// Copies of the payments made by one borrower.
    pub fn get_payments_by_student(&self, student_id: &str) -> (r: Vec<Payment>)
        ensures
            payment_views(r@) == student_payments_of(payment_views(self.payments@), student_id@),
    {
        let n = self.payments.len();
        let mut out: Vec<Payment> = Vec::new();
        let mut i: usize = 0;
        while i < n
            invariant
                i <= n == self.payments@.len(),
                payment_views(out@) == student_payments_of(
                    payment_views(self.payments@.subrange(0, i as int)),
                    student_id@,
                ),
            decreases n - i,
        {
            let ghost pre_models = payment_views(self.payments@.subrange(0, i as int));
            let ghost m = self.payments@[i as int]@;
            proof {
                lemma_payment_views(self.payments@.subrange(0, i as int));
                lemma_payment_views(self.payments@.subrange(0, i + 1 as int));
                assert(payment_views(self.payments@.subrange(0, i + 1 as int)) =~= pre_models.push(m));
                assert(pre_models.push(m).drop_last() =~= pre_models);
            }
            if str_eq(self.payments[i].student_id.as_str(), student_id) {
                proof {
                    assert(m.student_id == student_id@);
                }
                let ghost prev = out@;
                let item = self.payments[i].clone();
                out.push(item);
                proof {
                    lemma_payment_views(prev);
                    lemma_payment_views(out@);
                    assert(payment_views(out@) =~= payment_views(prev).push(m));
                }
            }
            i += 1;
        }
        proof {
            assert(self.payments@.subrange(0, n as int) =~= self.payments@);
        }
        out
    }

    /// The pooled treasury the rebalancer works on.
    pub fn get_treasury_config(&self) -> (r: TreasuryConfig)
        ensures
            r == self.treasury_config,
    {
        self.treasury_config.clone()
    }

    /// Replace the pooled treasury configuration.
    pub fn set_treasury_config(&mut self, config: TreasuryConfig)
        ensures
            *final(self) == (FinanceStorage { treasury_config: config, ..*old(self) }),
    {
        self.treasury_config = config;
    }

    /// The stored treasury of one purpose, if it was initialized.
    pub fn get_separate_treasury_config(&self, treasury_type: &TreasuryType) -> (r: Option<
        &SeparateTreasuryConfig,
    >)
        ensures
            r is Some <==> treasury_slot(*self, *treasury_type) is Some,
            r matches Some(c) ==> Some(*c) == treasury_slot(*self, *treasury_type),
    {
        match treasury_type {
            TreasuryType::Loan => self.loan_treasury.as_ref(),
            TreasuryType::Scholarship => self.scholarship_treasury.as_ref(),
            TreasuryType::Protocol => self.protocol_treasury.as_ref(),
        }
    }

    /// File a treasury under its own purpose.
    pub fn set_separate_treasury_config(&mut self, config: SeparateTreasuryConfig)
        ensures
            treasury_slot(*final(self), config.treasury_type) == Some(config),
            forall|t: TreasuryType|
                t != config.treasury_type ==> treasury_slot(*final(self), t) == treasury_slot(
                    *old(self),
                    t,
                ),
            final(self).loans == old(self).loans,
            final(self).payments == old(self).payments,
            final(self).treasury_config == old(self).treasury_config,
            final(self).counters == old(self).counters,
    {
        match config.treasury_type {
            TreasuryType::Loan => {
                self.loan_treasury = Some(config);
            },
            TreasuryType::Scholarship => {
                self.scholarship_treasury = Some(config);
            },
            TreasuryType::Protocol => {
                self.protocol_treasury = Some(config);
            },
        }
    }

    /// Copies of every initialized treasury, loan pool first.
    pub fn get_all_separate_treasuries(&self) -> (r: Vec<SeparateTreasuryConfig>)
        ensures
            r@ == spec_treasuries_list(*self),
    {
        let mut out: Vec<SeparateTreasuryConfig> = Vec::new();
        if let Some(c) = self.loan_treasury.as_ref() {
            out.push(c.clone());
        }
        if let Some(c) = self.scholarship_treasury.as_ref() {
            out.push(c.clone());
        }
        if let Some(c) = self.protocol_treasury.as_ref() {
            out.push(c.clone());
        }
        proof {
            assert(out@ =~= spec_treasuries_list(*self));
        }
        out
    }

    /// A fresh loan identifier; the loan counter moves forward, saturating at
    /// its largest value.
    pub fn get_next_loan_id(&mut self) -> (r: String)
        ensures
            r@ == id_text(crate::constants::LOAN_PREFIX@, old(self).counters.loan_counter as nat),
            final(self).counters.loan_counter == sat_add_u64(
                old(self).counters.loan_counter as int,
                1,
            ),
            final(self).counters.payment_counter == old(self).counters.payment_counter,
            final(self).loans == old(self).loans,
            final(self).payments == old(self).payments,
            final(self).treasury_config == old(self).treasury_config,
            final(self).loan_treasury == old(self).loan_treasury,
            final(self).scholarship_treasury == old(self).scholarship_treasury,
            final(self).protocol_treasury == old(self).protocol_treasury,
    {
        let id = crate::text::generate_id(crate::constants::LOAN_PREFIX, self.counters.loan_counter);
        self.counters.loan_counter = self.counters.loan_counter.saturating_add(1);
        id
    }

    /// A fresh payment identifier; the payment counter moves forward,
    /// saturating at its largest value.
    pub fn get_next_payment_id(&mut self) -> (r: String)
        ensures
            r@ == id_text(
                crate::constants::PAYMENT_PREFIX@,
                old(self).counters.payment_counter as nat,
            ),
            final(self).counters.payment_counter == sat_add_u64(
                old(self).counters.payment_counter as int,
                1,
            ),
            final(self).counters.loan_counter == old(self).counters.loan_counter,
            final(self).loans == old(self).loans,
            final(self).payments == old(self).payments,
            final(self).treasury_config == old(self).treasury_config,
            final(self).loan_treasury == old(self).loan_treasury,
            final(self).scholarship_treasury == old(self).scholarship_treasury,
            final(self).protocol_treasury == old(self).protocol_treasury,
    {
        let id = crate::text::generate_id(
            crate::constants::PAYMENT_PREFIX,
            self.counters.payment_counter,
        );
        self.counters.payment_counter = self.counters.payment_counter.saturating_add(1);
        id
    }

    /// Portfolio-wide figures derived from the stored loans and payments:
    /// sums saturate, rates are in basis points of the respective whole.
    pub fn calculate_treasury_stats(&self) -> (r: TreasuryStats)
        ensures
            r == spec_treasury_stats(*self),
            r.total_loans_outstanding == sum_outstanding(loan_views(self.loans@)),
            r.total_loans_disbursed == sum_disbursed(loan_views(self.loans@)),
            r.total_payments_received == sum_received(payment_views(self.payments@)),
            r.total_interest_earned == sum_interest(payment_views(self.payments@)),
            r.total_defaults == sum_defaults(loan_views(self.loans@)),
            r.active_loan_count == (if count_swept(loan_views(self.loans@)) > u32::MAX {
                u32::MAX as int
            } else {
                count_swept(loan_views(self.loans@))
            }),
            r.default_rate_bps == (if self.loans@.len() > 0 {
                count_default(loan_views(self.loans@)) * 10_000 / (self.loans@.len() as int)
            } else {
                0
            }),
            r.average_loan_size == (if self.loans@.len() > 0 {
                sum_disbursed(loan_views(self.loans@)) / (self.loans@.len() as int)
            } else {
                0
            }),
            r.portfolio_yield_bps == (if sum_outstanding(loan_views(self.loans@)) > 0 {
                let y = sum_interest(payment_views(self.payments@)) * 10_000 / sum_outstanding(
                    loan_views(self.loans@),
                );
                if y > u64::MAX {
                    u64::MAX as int
                } else {
                    y
                }
            } else {
                0
            }),
    {
        let n = self.loans.len();
        let mut outstanding: u64 = 0;
        let mut disbursed: u64 = 0;
        let mut defaults: u64 = 0;
        let mut active_count: usize = 0;
        let mut default_count: usize = 0;
        let mut i: usize = 0;
        while i < n
            invariant
                i <= n == self.loans@.len(),
                outstanding == sum_outstanding(loan_views(self.loans@.subrange(0, i as int))),
                disbursed == sum_disbursed(loan_views(self.loans@.subrange(0, i as int))),
                defaults == sum_defaults(loan_views(self.loans@.subrange(0, i as int))),
                active_count == count_swept(loan_views(self.loans@.subrange(0, i as int))),
                default_count == count_default(loan_views(self.loans@.subrange(0, i as int))),
                active_count <= i,
                default_count <= i,
            decreases n - i,
        {
            let ghost pre_models = loan_views(self.loans@.subrange(0, i as int));
            let ghost m = self.loans@[i as int]@;
            proof {
                lemma_loan_views(self.loans@.subrange(0, i as int));
                lemma_loan_views(self.loans@.subrange(0, i + 1 as int));
                assert(loan_views(self.loans@.subrange(0, i + 1 as int)) =~= pre_models.push(m));
                assert(pre_models.push(m).drop_last() =~= pre_models);
            }
            let loan = &self.loans[i];
            if loan.status.is_swept() {
                outstanding = outstanding.saturating_add(loan.current_balance);
                active_count = active_count + 1;
            }
            disbursed = disbursed.saturating_add(loan.original_amount);
            match loan.status {
                LoanStatus::Default => {
                    defaults = defaults.saturating_add(loan.current_balance);
                    default_count = default_count + 1;
                },
                _ => {},
            }
            i += 1;
        }
        let np = self.payments.len();
        let mut received: u64 = 0;
        let mut interest: u64 = 0;
        let mut j: usize = 0;
        while j < np
            invariant
                j <= np == self.payments@.len(),
                received == sum_received(payment_views(self.payments@.subrange(0, j as int))),
                interest == sum_interest(payment_views(self.payments@.subrange(0, j as int))),
            decreases np - j,
        {
            let ghost pre_models = payment_views(self.payments@.subrange(0, j as int));
            let ghost m = self.payments@[j as int]@;
            proof {
                lemma_payment_views(self.payments@.subrange(0, j as int));
                lemma_payment_views(self.payments@.subrange(0, j + 1 as int));
                assert(payment_views(self.payments@.subrange(0, j + 1 as int)) =~= pre_models.push(
                    m,
                ));
                assert(pre_models.push(m).drop_last() =~= pre_models);
            }
            let payment = &self.payments[j];
            match payment.status {
                PaymentStatus::Completed => {
                    received = received.saturating_add(payment.amount);
                    interest = interest.saturating_add(payment.interest_portion);
                },
                _ => {},
            }
            j += 1;
        }
        proof {
            assert(self.loans@.subrange(0, n as int) =~= self.loans@);
            assert(self.payments@.subrange(0, np as int) =~= self.payments@);
            lemma_loan_views(self.loans@);
        }
        let default_rate_bps: u64 = if n > 0 {
            proof {
                vstd::arithmetic::div_mod::lemma_div_is_ordered((default_count as int) * 10_000,
                    (n as int) * 10_000, n as int);
                vstd::arithmetic::div_mod::lemma_div_multiples_vanish(10_000, n as int);
                vstd::arithmetic::mul::lemma_mul_inequality(default_count as int, n as int, 10_000);
            }
            ((default_count as u128) * 10_000 / (n as u128)) as u64
        } else {
            0
        };
        let average_loan_size: u64 = if n > 0 {
            disbursed / (n as u64)
        } else {
            0
        };
        let portfolio_yield_bps: u64 = if outstanding > 0 {
            let y: u128 = (interest as u128) * 10_000 / (outstanding as u128);
            if y > u64::MAX as u128 {
                u64::MAX
            } else {
                y as u64
            }
        } else {
            0
        };
        let active_loan_count: u32 = if active_count > u32::MAX as usize {
            u32::MAX
        } else {
            active_count as u32
        };
        TreasuryStats {
            total_loans_outstanding: outstanding,
            total_loans_disbursed: disbursed,
            total_payments_received: received,
            total_interest_earned: interest,
            total_defaults: defaults,
            active_loan_count,
            default_rate_bps,
            average_loan_size,
            portfolio_yield_bps,
        }
    }
}

/// The initialized treasuries in a fixed order: loan, scholarship, protocol.
pub open spec fn spec_treasuries_list(s: FinanceStorage) -> Seq<SeparateTreasuryConfig> {
    (match s.loan_treasury {
        Some(c) => seq![c],
        None => Seq::empty(),
    }) + (match s.scholarship_treasury {
        Some(c) => seq![c],
        None => Seq::empty(),
    }) + (match s.protocol_treasury {
        Some(c) => seq![c],
        None => Seq::empty(),
    })
}

} // verus!
