use vstd::prelude::*;

use crate::Amount;
use crate::Timestamp;
use crate::amortization::calculate_monthly_payment;
use crate::amortization::spec_monthly_payment;
use crate::automation::AutomationEngine;
use crate::automation::spec_payment_breakdown;
use crate::constants::BPS_SCALE;
use crate::constants::LOAN_PREFIX;
use crate::constants::MAX_GRACE_PERIOD_MONTHS;
use crate::constants::MAX_INTEREST_RATE_BPS;
use crate::constants::MAX_LOAN_TERM_MONTHS;
use crate::constants::MIN_LOAN_TERM_MONTHS;
use crate::constants::NANOS_PER_MONTH;
use crate::constants::ORIGINATION_FEE_BPS;
use crate::constants::PAYMENT_PREFIX;
use crate::errors::StudiFiError;
use crate::errors::StudiFiResult;
use crate::loans::Loan;
use crate::loans::LoanModel;
use crate::loans::LoanStatus;
use crate::loans::Payment;
use crate::loans::PaymentMethod;
use crate::loans::PaymentMethodModel;
use crate::loans::PaymentModel;
use crate::loans::PaymentStatus;
use crate::loans::PaymentType;
use crate::loans::sat_add_u64;
use crate::storage::FinanceStorage;
use crate::storage::find_loan;
use crate::storage::find_payment;
use crate::storage::lemma_find_loan;
use crate::storage::lemma_loan_views;
use crate::storage::lemma_payment_views;
use crate::storage::loan_views;
use crate::storage::payment_views;
use crate::storage::treasuries_wf;
use crate::text::id_text;
use crate::text::str_eq;
use crate::treasury::TreasuryEngine;
use crate::treasury::TreasuryType;
use crate::treasury::allocation_ok;
use crate::treasury::slot_or_initial;
use crate::treasury::spec_allocate;
use crate::treasury::spec_return_funds;

verus! {

/// The inputs to `create_loan` that the platform accepts: a positive amount,
/// a rate and term within the platform limits, and a grace period within its
/// limit.
pub open spec fn create_loan_input_ok(amount: int, rate_bps: int, term: int, grace: int) -> bool {
    &&& amount > 0
    &&& rate_bps <= MAX_INTEREST_RATE_BPS
    &&& MIN_LOAN_TERM_MONTHS <= term <= MAX_LOAN_TERM_MONTHS
    &&& grace <= MAX_GRACE_PERIOD_MONTHS
}

/// The origination fee on a principal, one percent in basis points.
pub open spec fn spec_origination_fee(amount: int) -> int {
    amount * (ORIGINATION_FEE_BPS as int) / (BPS_SCALE as int)
}

/// The monthly payment as stored on a loan: the amortization formula capped
/// at the largest representable amount.
pub open spec fn stored_monthly_payment(amount: int, rate_bps: int, term: int) -> int {
    let p = spec_monthly_payment(amount, rate_bps, term);
    if p > u64::MAX {
        u64::MAX as int
    } else {
        p
    }
}

/// The model of the loan `create_loan` originates.
pub open spec fn created_loan_model(
    student_id: Seq<char>,
    amount: int,
    rate_bps: u64,
    term: u32,
    grace: u32,
    purpose: Seq<char>,
    collateral_required: bool,
    cosigner_id: Option<Seq<char>>,
    conditions: Seq<Seq<char>>,
    counter: nat,
    now: Timestamp,
) -> LoanModel {
    LoanModel {
        id: id_text(LOAN_PREFIX@, counter),
        student_id,
        original_amount: amount as u64,
        current_balance: amount as u64,
        interest_rate_bps: rate_bps,
        term_months: term,
        monthly_payment: stored_monthly_payment(amount, rate_bps as int, term as int) as u64,
        grace_period_months: grace,
        origination_fee: spec_origination_fee(amount) as u64,
        status: LoanStatus::Active,
        created_at: now,
        first_payment_due: sat_add_u64(now as int, (grace as int) * (NANOS_PER_MONTH as int))
            as u64,
        last_payment_date: None,
        payments_made: 0,
        late_payments: 0,
        purpose,
        collateral_required,
        cosigner_id,
        special_conditions: conditions,
    }
}

/// Originate a loan: validate the request, check and reserve treasury funds,
/// and persist the new record. A refused request changes nothing.
pub fn create_loan(
    storage: &mut FinanceStorage,
    student_id: String,
    principal_amount: Amount,
    interest_rate_bps: u64,
    term_months: u32,
    grace_period_months: u32,
    purpose: String,
    collateral_required: bool,
    cosigner_id: Option<String>,
    special_conditions: Vec<String>,
    now: Timestamp,
) -> (r: StudiFiResult<Loan>)
    requires
        treasuries_wf(*old(storage)),
    ensures
        treasuries_wf(*final(storage)),
        r is Ok <==> (create_loan_input_ok(
            principal_amount as int,
            interest_rate_bps as int,
            term_months as int,
            grace_period_months as int,
        ) && (old(storage).loan_treasury matches Some(t) && allocation_ok(
            t,
            principal_amount as int,
        ))),
        r matches Err(e) ==> (if !create_loan_input_ok(
            principal_amount as int,
            interest_rate_bps as int,
            term_months as int,
            grace_period_months as int,
        ) {
            e is InvalidInput
        } else if old(storage).loan_treasury is None {
            e is NotFound
        } else {
            e is InsufficientFunds
        }),
        r is Err ==> *final(storage) == *old(storage),
        r matches Ok(loan) ==> ({
            let model = created_loan_model(
                student_id@,
                principal_amount as int,
                interest_rate_bps,
                term_months,
                grace_period_months,
                purpose@,
                collateral_required,
                (match cosigner_id {
                    Some(c) => Some(c@),
                    None => None,
                }),
                special_conditions@.map_values(|s: String| s@),
                old(storage).counters.loan_counter as nat,
                now,
            );
            let at = find_loan(old(storage).loans@, model.id);
            &&& loan@ == model
            &&& loan_views(final(storage).loans@) == (if at >= 0 {
                loan_views(old(storage).loans@).update(at, model)
            } else {
                loan_views(old(storage).loans@).push(model)
            })
            &&& final(storage).loan_treasury == Some(
                spec_allocate(old(storage).loan_treasury->0, principal_amount as int, now),
            )
            &&& final(storage).counters.loan_counter == sat_add_u64(
                old(storage).counters.loan_counter as int,
                1,
            )
        }),
        final(storage).payments == old(storage).payments,
        final(storage).scholarship_treasury == old(storage).scholarship_treasury,
        final(storage).protocol_treasury == old(storage).protocol_treasury,
        final(storage).treasury_config == old(storage).treasury_config,
        final(storage).counters.payment_counter == old(storage).counters.payment_counter,
{
    if principal_amount == 0 {
        return Err(StudiFiError::InvalidInput("Amount must be positive".to_owned()));
    }
    if interest_rate_bps > MAX_INTEREST_RATE_BPS {
        return Err(StudiFiError::InvalidInput("Interest rate exceeds the platform cap".to_owned()));
    }
    if term_months < MIN_LOAN_TERM_MONTHS || term_months > MAX_LOAN_TERM_MONTHS {
        return Err(StudiFiError::InvalidInput("Term must be within the platform limits".to_owned()));
    }
    if grace_period_months > MAX_GRACE_PERIOD_MONTHS {
        return Err(StudiFiError::InvalidInput("Grace period exceeds the platform cap".to_owned()));
    }
    match TreasuryEngine::check_loan_eligibility(storage, principal_amount) {
        Ok(()) => {},
        Err(e) => {
            return Err(e);
        },
    }
    let monthly_payment = calculate_monthly_payment(principal_amount, interest_rate_bps,
        term_months);
    proof {
        vstd::arithmetic::mul::lemma_mul_upper_bound(principal_amount as int, u64::MAX as int,
            ORIGINATION_FEE_BPS as int, ORIGINATION_FEE_BPS as int);
        vstd::arithmetic::div_mod::lemma_div_is_ordered(
            (principal_amount as int) * (ORIGINATION_FEE_BPS as int),
            (u64::MAX as int) * (ORIGINATION_FEE_BPS as int),
            BPS_SCALE as int,
        );
    }
    let origination_fee: u64 = ((principal_amount as u128) * (ORIGINATION_FEE_BPS as u128) / (
    BPS_SCALE as u128)) as u64;
    let loan_id = storage.get_next_loan_id();
    let loan = Loan::new(
        loan_id.clone(),
        student_id,
        principal_amount,
        interest_rate_bps,
        term_months,
        monthly_payment,
        grace_period_months,
        origination_fee,
        purpose,
        collateral_required,
        cosigner_id,
        special_conditions,
        now,
    );
    match TreasuryEngine::allocate_loan_funds(storage, principal_amount, now) {
        Ok(()) => {},
        Err(e) => {
            return Err(e);
        },
    }
    let result = loan.clone();
    let ghost pre_loans = storage.loans@;
    storage.insert_loan(loan_id, loan);
    proof {
        lemma_find_loan(pre_loans, result@.id);
        lemma_loan_views(pre_loans);
        lemma_loan_views(storage.loans@);
        let at = find_loan(pre_loans, result@.id);
        if at >= 0 {
            assert(loan_views(storage.loans@) =~= loan_views(pre_loans).update(at, result@));
        } else {
            assert(loan_views(storage.loans@) =~= loan_views(pre_loans).push(result@));
        }
    }
    Ok(result)
}

/// The model of the payment record `process_payment` files.
pub open spec fn regular_payment_model(
    m: LoanModel,
    amount: int,
    method: PaymentMethodModel,
    caller: Seq<char>,
    counter: nat,
    now: Timestamp,
) -> PaymentModel {
    let b = spec_payment_breakdown(m.current_balance as int, m.interest_rate_bps as int, amount);
    PaymentModel {
        id: id_text(PAYMENT_PREFIX@, counter),
        loan_id: m.id,
        student_id: caller,
        amount: amount as u64,
        principal_portion: b.principal_portion,
        interest_portion: b.interest_portion,
        late_fee: 0,
        payment_type: PaymentType::Regular,
        payment_method: method,
        status: PaymentStatus::Completed,
        created_at: now,
        processed_at: Some(now),
        transaction_hash: None,
        notes: Seq::empty(),
    }
}

/// A loan after a completed payment: the balance drops to the remainder, the
/// payment count moves forward, the record is stamped, and a cleared balance
/// ends the loan as paid off.
pub open spec fn paid_loan_model(m: LoanModel, amount: int, now: Timestamp) -> LoanModel {
    let b = spec_payment_breakdown(m.current_balance as int, m.interest_rate_bps as int, amount);
    LoanModel {
        current_balance: b.remaining_balance,
        payments_made: (if m.payments_made < u32::MAX {
            m.payments_made + 1
        } else {
            u32::MAX as int
        }) as u32,
        last_payment_date: Some(now),
        status: if b.remaining_balance == 0 {
            LoanStatus::PaidOff
        } else {
            m.status
        },
        ..m
    }
}

/// The caller may pay on this loan: they are its borrower or its co-signer.
pub open spec fn may_pay(m: LoanModel, caller: Seq<char>) -> bool {
    m.student_id == caller || m.cosigner_id == Some(caller)
}

/// Process a payment from the borrower or co-signer of a loan: validate,
/// split the amount, credit the treasury, and persist the updated loan and
/// the completed payment record. On any refusal nothing changes.
pub fn process_payment(
    storage: &mut FinanceStorage,
    loan_id: String,
    payment_amount: Amount,
    payment_method: PaymentMethod,
    caller: String,
    now: Timestamp,
) -> (r: StudiFiResult<Payment>)
    requires
        treasuries_wf(*old(storage)),
    ensures
        treasuries_wf(*final(storage)),
        ({
            let at = find_loan(old(storage).loans@, loan_id@);
            let m = old(storage).loans@[at]@;
            let b = spec_payment_breakdown(
                m.current_balance as int,
                m.interest_rate_bps as int,
                payment_amount as int,
            );
            let base = slot_or_initial(*old(storage), TreasuryType::Loan, now);
            let treasury_ok = b.principal_portion <= base.reserved_funds && base.total_funds
                + b.interest_portion <= u64::MAX;
            &&& (r is Ok <==> payment_amount > 0 && at >= 0 && may_pay(m, caller@) && !(m.status
                is PaidOff || m.status is Cancelled) && treasury_ok)
            &&& (r matches Err(e) ==> (if payment_amount == 0 {
                e is InvalidInput
            } else if at < 0 {
                e is NotFound
            } else if !may_pay(m, caller@) {
                e is Unauthorized
            } else if m.status is PaidOff || m.status is Cancelled {
                e is InvalidInput
            } else {
                e is InternalError
            }))
            &&& (r matches Ok(p) ==> ({
                let pm = regular_payment_model(
                    m,
                    payment_amount as int,
                    payment_method@,
                    caller@,
                    old(storage).counters.payment_counter as nat,
                    now,
                );
                let pat = find_payment(old(storage).payments@, pm.id);
                &&& p@ == pm
                &&& loan_views(final(storage).loans@) == loan_views(old(storage).loans@).update(
                    at,
                    paid_loan_model(m, payment_amount as int, now),
                )
                &&& payment_views(final(storage).payments@) == (if pat >= 0 {
                    payment_views(old(storage).payments@).update(pat, pm)
                } else {
                    payment_views(old(storage).payments@).push(pm)
                })
                &&& final(storage).loan_treasury == Some(
                    spec_return_funds(
                        base,
                        b.principal_portion as int,
                        b.interest_portion as int,
                        now,
                    ),
                )
                &&& final(storage).counters.payment_counter == sat_add_u64(
                    old(storage).counters.payment_counter as int,
                    1,
                )
            }))
        }),
        r is Err ==> *final(storage) == *old(storage),
        final(storage).scholarship_treasury == old(storage).scholarship_treasury,
        final(storage).protocol_treasury == old(storage).protocol_treasury,
        final(storage).treasury_config == old(storage).treasury_config,
        final(storage).counters.loan_counter == old(storage).counters.loan_counter,
{
    if payment_amount == 0 {
        return Err(StudiFiError::InvalidInput("Amount must be positive".to_owned()));
    }
    let loan = match storage.get_loan(loan_id.as_str()) {
        Some(l) => l.clone(),
        None => {
            return Err(StudiFiError::NotFound("Loan not found".to_owned()));
        },
    };
    let authorized = str_eq(loan.student_id.as_str(), caller.as_str()) || (match &loan.cosigner_id {
        Some(c) => str_eq(c.as_str(), caller.as_str()),
        None => false,
    });
    if !authorized {
        return Err(
            StudiFiError::Unauthorized("Not authorized to make payments on this loan".to_owned()),
        );
    }
    let payable = match loan.status {
        LoanStatus::PaidOff => false,
        LoanStatus::Cancelled => false,
        _ => true,
    };
    if !payable {
        return Err(StudiFiError::InvalidInput("Loan is not in a payable state".to_owned()));
    }
    let breakdown = AutomationEngine::calculate_payment_breakdown(&loan, payment_amount);
    match TreasuryEngine::process_payment_to_treasury(storage, breakdown.principal_portion,
        breakdown.interest_portion, 0, now) {
        Ok(()) => {},
        Err(e) => {
            return Err(e);
        },
    }
    let payment_id = storage.get_next_payment_id();
    let mut payment = Payment::new(
        payment_id.clone(),
        loan_id.clone(),
        caller,
        payment_amount,
        breakdown.principal_portion,
        breakdown.interest_portion,
        0,
        PaymentType::Regular,
        payment_method,
        now,
    );
    payment.status = PaymentStatus::Completed;
    payment.processed_at = Some(now);
    let mut updated_loan = loan.clone();
    updated_loan.current_balance = breakdown.remaining_balance;
    updated_loan.payments_made = if updated_loan.payments_made < u32::MAX {
        updated_loan.payments_made + 1
    } else {
        u32::MAX
    };
    updated_loan.last_payment_date = Some(now);
    if updated_loan.current_balance == 0 {
        updated_loan.status = LoanStatus::PaidOff;
    }
    let ghost pre_loans = storage.loans@;
    let ghost pre_payments = storage.payments@;
    proof {
        lemma_find_loan(pre_loans, loan_id@);
    }
    match storage.update_loan(loan_id, updated_loan) {
        Ok(_) => {},
        Err(_) => {},
    }
    let result = payment.clone();
    let ghost mid_payments = storage.payments@;
    storage.insert_payment(payment_id, payment);
    proof {
        let at = find_loan(old(storage).loans@, result@.loan_id);
        lemma_loan_views(pre_loans);
        lemma_loan_views(storage.loans@);
        assert(loan_views(storage.loans@) =~= loan_views(old(storage).loans@).update(
            at,
            paid_loan_model(old(storage).loans@[at]@, payment_amount as int, now),
        ));
        crate::storage::lemma_find_payment(mid_payments, result@.id);
        lemma_payment_views(mid_payments);
        lemma_payment_views(storage.payments@);
        let pat = find_payment(mid_payments, result@.id);
        if pat >= 0 {
            assert(payment_views(storage.payments@) =~= payment_views(mid_payments).update(
                pat,
                result@,
            ));
        } else {
            assert(payment_views(storage.payments@) =~= payment_views(mid_payments).push(result@));
        }
    }
    Ok(result)
}

/// The model of the payoff record `make_early_payoff` files.
pub open spec fn payoff_payment_model(
    m: LoanModel,
    method: PaymentMethodModel,
    caller: Seq<char>,
    counter: nat,
    now: Timestamp,
) -> PaymentModel {
    let penalty = crate::automation::spec_prepayment_penalty(m);
    PaymentModel {
        id: id_text(PAYMENT_PREFIX@, counter),
        loan_id: m.id,
        student_id: caller,
        amount: sat_add_u64(m.current_balance as int, penalty) as u64,
        principal_portion: m.current_balance,
        interest_portion: 0,
        late_fee: penalty as u64,
        payment_type: PaymentType::FullPayoff,
        payment_method: method,
        status: PaymentStatus::Completed,
        created_at: now,
        processed_at: Some(now),
        transaction_hash: None,
        notes: Seq::empty(),
    }
}

/// A loan after its early payoff: the balance is cleared, the loan is paid
/// off, and the record is stamped.
pub open spec fn payoff_loan_model(m: LoanModel, now: Timestamp) -> LoanModel {
    LoanModel {
        current_balance: 0,
        status: LoanStatus::PaidOff,
        last_payment_date: Some(now),
        ..m
    }
}

/// Pay a loan off in full: the remaining balance plus the prepayment penalty
/// (waived for tagged loans) settles the loan, whatever the penalty. On any
/// refusal nothing changes.
pub fn make_early_payoff(
    storage: &mut FinanceStorage,
    loan_id: String,
    payment_method: PaymentMethod,
    caller: String,
    now: Timestamp,
) -> (r: StudiFiResult<Payment>)
    requires
        treasuries_wf(*old(storage)),
    ensures
        treasuries_wf(*final(storage)),
        ({
            let at = find_loan(old(storage).loans@, loan_id@);
            let m = old(storage).loans@[at]@;
            let penalty = crate::automation::spec_prepayment_penalty(m);
            let base = slot_or_initial(*old(storage), TreasuryType::Loan, now);
            let treasury_ok = m.current_balance <= base.reserved_funds && penalty <= u64::MAX
                && base.total_funds + penalty <= u64::MAX;
            &&& (r is Ok <==> at >= 0 && may_pay(m, caller@) && treasury_ok)
            &&& (r matches Err(e) ==> (if at < 0 {
                e is NotFound
            } else if !may_pay(m, caller@) {
                e is Unauthorized
            } else {
                e is InternalError
            }))
            &&& (r matches Ok(p) ==> ({
                let pm = payoff_payment_model(
                    m,
                    payment_method@,
                    caller@,
                    old(storage).counters.payment_counter as nat,
                    now,
                );
                let pat = find_payment(old(storage).payments@, pm.id);
                &&& p@ == pm
                &&& loan_views(final(storage).loans@) == loan_views(old(storage).loans@).update(
                    at,
                    payoff_loan_model(m, now),
                )
                &&& payment_views(final(storage).payments@) == (if pat >= 0 {
                    payment_views(old(storage).payments@).update(pat, pm)
                } else {
                    payment_views(old(storage).payments@).push(pm)
                })
                &&& final(storage).loan_treasury == Some(
                    spec_return_funds(base, m.current_balance as int, penalty, now),
                )
                &&& final(storage).counters.payment_counter == sat_add_u64(
                    old(storage).counters.payment_counter as int,
                    1,
                )
            }))
        }),
        r is Err ==> *final(storage) == *old(storage),
        final(storage).scholarship_treasury == old(storage).scholarship_treasury,
        final(storage).protocol_treasury == old(storage).protocol_treasury,
        final(storage).treasury_config == old(storage).treasury_config,
        final(storage).counters.loan_counter == old(storage).counters.loan_counter,
{
    let loan = match storage.get_loan(loan_id.as_str()) {
        Some(l) => l.clone(),
        None => {
            return Err(StudiFiError::NotFound("Loan not found".to_owned()));
        },
    };
    let authorized = str_eq(loan.student_id.as_str(), caller.as_str()) || (match &loan.cosigner_id {
        Some(c) => str_eq(c.as_str(), caller.as_str()),
        None => false,
    });
    if !authorized {
        return Err(
            StudiFiError::Unauthorized("Not authorized to make payments on this loan".to_owned()),
        );
    }
    let payoff_info = AutomationEngine::check_early_payoff_eligibility(&loan);
    if !payoff_info.is_eligible {
        return Err(StudiFiError::InvalidInput("Loan is not eligible for early payoff".to_owned()));
    }
    match TreasuryEngine::process_payment_to_treasury(storage, payoff_info.remaining_balance, 0,
        payoff_info.prepayment_penalty, now) {
        Ok(()) => {},
        Err(e) => {
            return Err(e);
        },
    }
    let payment_id = storage.get_next_payment_id();
    let mut payment = Payment::new(
        payment_id.clone(),
        loan_id.clone(),
        caller,
        payoff_info.total_payoff_amount,
        payoff_info.remaining_balance,
        0,
        payoff_info.prepayment_penalty,
        PaymentType::FullPayoff,
        payment_method,
        now,
    );
    payment.status = PaymentStatus::Completed;
    payment.processed_at = Some(now);
    let mut updated_loan = loan.clone();
    updated_loan.current_balance = 0;
    updated_loan.status = LoanStatus::PaidOff;
    updated_loan.last_payment_date = Some(now);
    let ghost pre_loans = storage.loans@;
    proof {
        lemma_find_loan(pre_loans, loan_id@);
    }
    match storage.update_loan(loan_id, updated_loan) {
        Ok(_) => {},
        Err(_) => {},
    }
    let result = payment.clone();
    let ghost mid_payments = storage.payments@;
    storage.insert_payment(payment_id, payment);
    proof {
        let at = find_loan(old(storage).loans@, result@.loan_id);
        lemma_loan_views(pre_loans);
        lemma_loan_views(storage.loans@);
        assert(loan_views(storage.loans@) =~= loan_views(old(storage).loans@).update(
            at,
            payoff_loan_model(old(storage).loans@[at]@, now),
        ));
        crate::storage::lemma_find_payment(mid_payments, result@.id);
        lemma_payment_views(mid_payments);
        lemma_payment_views(storage.payments@);
        let pat = find_payment(mid_payments, result@.id);
        if pat >= 0 {
            assert(payment_views(storage.payments@) =~= payment_views(mid_payments).update(
                pat,
                result@,
            ));
        } else {
            assert(payment_views(storage.payments@) =~= payment_views(mid_payments).push(result@));
        }
    }
    Ok(result)
}

/// The stored loan carrying `loan_id`, copied out for the caller.
pub fn get_loan(storage: &FinanceStorage, loan_id: &str) -> (r: Option<Loan>)
    ensures
        r is Some <==> find_loan(storage.loans@, loan_id@) >= 0,
        r matches Some(l) ==> l@ == storage.loans@[find_loan(storage.loans@, loan_id@)]@,
{
    match storage.get_loan(loan_id) {
        Some(l) => Some(l.clone()),
        None => None,
    }
}

/// The stored payment carrying `payment_id`, copied out for the caller.
pub fn get_payment(storage: &FinanceStorage, payment_id: &str) -> (r: Option<Payment>)
    ensures
        r is Some <==> find_payment(storage.payments@, payment_id@) >= 0,
        r matches Some(p) ==> p@ == storage.payments@[find_payment(
            storage.payments@,
            payment_id@,
        )]@,
{
    match storage.get_payment(payment_id) {
        Some(p) => Some(p.clone()),
        None => None,
    }
}

/// The split a payment of `payment_amount` would have against a stored loan.
pub fn calculate_payment_breakdown(
    storage: &FinanceStorage,
    loan_id: &str,
    payment_amount: Amount,
) -> (r: StudiFiResult<crate::automation::PaymentBreakdown>)
    ensures
        r is Ok <==> (find_loan(storage.loans@, loan_id@) >= 0 && payment_amount > 0),
        r matches Ok(b) ==> b == spec_payment_breakdown(
            storage.loans@[find_loan(storage.loans@, loan_id@)]@.current_balance as int,
            storage.loans@[find_loan(storage.loans@, loan_id@)]@.interest_rate_bps as int,
            payment_amount as int,
        ),
        r matches Err(e) ==> (if find_loan(storage.loans@, loan_id@) < 0 {
            e is NotFound
        } else {
            e is InvalidInput
        }),
{
    let loan = match storage.get_loan(loan_id) {
        Some(l) => l,
        None => {
            return Err(StudiFiError::NotFound("Loan not found".to_owned()));
        },
    };
    if payment_amount == 0 {
        return Err(StudiFiError::InvalidInput("Amount must be positive".to_owned()));
    }
    Ok(AutomationEngine::calculate_payment_breakdown(loan, payment_amount))
}

/// What paying a stored loan off early would cost.
pub fn get_early_payoff_info(storage: &FinanceStorage, loan_id: &str) -> (r: StudiFiResult<
    crate::automation::EarlyPayoffInfo,
>)
    ensures
        r is Ok <==> find_loan(storage.loans@, loan_id@) >= 0,
        r matches Err(e) ==> e is NotFound,
        r matches Ok(info) ==> ({
            let m = storage.loans@[find_loan(storage.loans@, loan_id@)]@;
            &&& info.remaining_balance == m.current_balance
            &&& info.prepayment_penalty == crate::automation::spec_prepayment_penalty(m)
            &&& info.total_payoff_amount == sat_add_u64(
                m.current_balance as int,
                crate::automation::spec_prepayment_penalty(m),
            )
            &&& info.is_eligible
        }),
{
    let loan = match storage.get_loan(loan_id) {
        Some(l) => l,
        None => {
            return Err(StudiFiError::NotFound("Loan not found".to_owned()));
        },
    };
    Ok(AutomationEngine::check_early_payoff_eligibility(loan))
}

/// Replace the pooled treasury configuration.
pub fn update_treasury_config(storage: &mut FinanceStorage, config: crate::loans::TreasuryConfig)
    -> (r: StudiFiResult<()>)
    ensures
        r is Ok,
        *final(storage) == (FinanceStorage { treasury_config: config, ..*old(storage) }),
{
    storage.set_treasury_config(config);
    Ok(())
}

/// A borrower's aggregate position across their loans and payments.
#[derive(Clone, Copy, Debug, PartialEq, Eq, Structural)]
pub struct StudentLoanStats {
    pub total_borrowed: Amount,
    pub current_balance: Amount,
    pub total_paid: Amount,
    pub active_loans: u32,
    pub completed_loans: u32,
    pub on_time_payments: u32,
    pub late_payments: u32,
    pub credit_score_impact: i32,
}

/// Original principals of a list of loans, summed with saturation.
pub open spec fn borrowed_sum(s: Seq<LoanModel>) -> int
    decreases s.len(),
{
    if s.len() == 0 {
        0
    } else {
        sat_add_u64(borrowed_sum(s.drop_last()), s.last().original_amount as int)
    }
}

/// Current balances of a list of loans, summed with saturation.
pub open spec fn balance_sum(s: Seq<LoanModel>) -> int
    decreases s.len(),
{
    if s.len() == 0 {
        0
    } else {
        sat_add_u64(balance_sum(s.drop_last()), s.last().current_balance as int)
    }
}

/// How many of a list of loans are still being repaid.
pub open spec fn active_count_of(s: Seq<LoanModel>) -> int
    decreases s.len(),
{
    if s.len() == 0 {
        0
    } else {
        active_count_of(s.drop_last()) + (if s.last().status is Active || s.last().status
            is Late {
            1int
        } else {
            0int
        })
    }
}

/// How many of a list of loans are paid off.
pub open spec fn paid_off_count_of(s: Seq<LoanModel>) -> int
    decreases s.len(),
{
    if s.len() == 0 {
        0
    } else {
        paid_off_count_of(s.drop_last()) + (if s.last().status is PaidOff {
            1int
        } else {
            0int
        })
    }
}

/// How many of a list of loans have defaulted.
pub open spec fn default_count_of(s: Seq<LoanModel>) -> int
    decreases s.len(),
{
    if s.len() == 0 {
        0
    } else {
        default_count_of(s.drop_last()) + (if s.last().status is Default {
            1int
        } else {
            0int
        })
    }
}

/// Late-payment tallies of a list of loans, summed.
pub open spec fn late_count_sum(s: Seq<LoanModel>) -> int
    decreases s.len(),
{
    if s.len() == 0 {
        0
    } else {
        late_count_sum(s.drop_last()) + s.last().late_payments as int
    }
}

/// Amounts of the completed payments in a list, summed with saturation.
pub open spec fn paid_amount_sum(s: Seq<PaymentModel>) -> int
    decreases s.len(),
{
    if s.len() == 0 {
        0
    } else {
        sat_add_u64(
            paid_amount_sum(s.drop_last()),
            if s.last().status is Completed {
                s.last().amount as int
            } else {
                0
            },
        )
    }
}

/// How many of a list of payments are regular scheduled payments.
pub open spec fn regular_count_of(s: Seq<PaymentModel>) -> int
    decreases s.len(),
{
    if s.len() == 0 {
        0
    } else {
        regular_count_of(s.drop_last()) + (if s.last().payment_type is Regular {
            1int
        } else {
            0int
        })
    }
}

/// `v` clamped into the signed 32-bit range.
pub open spec fn clamp_i32(v: int) -> int {
    if v > i32::MAX {
        i32::MAX as int
    } else if v < i32::MIN {
        i32::MIN as int
    } else {
        v
    }
}

/// The credit-score impact of a borrowing history: paid-off loans and
/// regular payments help, late payments and defaults hurt.
pub open spec fn spec_credit_impact(loans: Seq<LoanModel>, pays: Seq<PaymentModel>) -> int {
    clamp_i32(
        paid_off_count_of(loans) * 10 - late_count_sum(loans) * 5 - default_count_of(loans) * 50
            + regular_count_of(pays) * 2,
    )
}

/// The credit-score impact of a loan and payment history.
pub fn calculate_credit_impact(loans: &Vec<Loan>, payments: &Vec<Payment>) -> (r: i32)
    ensures
        r == spec_credit_impact(loan_views(loans@), payment_views(payments@)),
{
    let n = loans.len();
    let mut paid_off: i128 = 0;
    let mut late_total: i128 = 0;
    let mut defaults: i128 = 0;
    let mut i: usize = 0;
    while i < n
        invariant
            i <= n == loans@.len(),
            paid_off == paid_off_count_of(loan_views(loans@.subrange(0, i as int))),
            late_total == late_count_sum(loan_views(loans@.subrange(0, i as int))),
            defaults == default_count_of(loan_views(loans@.subrange(0, i as int))),
            0 <= paid_off <= i,
            0 <= defaults <= i,
            0 <= late_total,
            late_total <= (i as int) * (u32::MAX as int),
        decreases n - i,
    {
        let ghost pre_models = loan_views(loans@.subrange(0, i as int));
        let ghost m = loans@[i as int]@;
        proof {
            lemma_loan_views(loans@.subrange(0, i as int));
            lemma_loan_views(loans@.subrange(0, i + 1 as int));
            assert(loan_views(loans@.subrange(0, i + 1 as int)) =~= pre_models.push(m));
            assert(pre_models.push(m).drop_last() =~= pre_models);
            vstd::arithmetic::mul::lemma_mul_inequality(i as int, usize::MAX as int,
                u32::MAX as int);
        }
        match loans[i].status {
            LoanStatus::PaidOff => {
                paid_off = paid_off + 1;
            },
            LoanStatus::Default => {
                defaults = defaults + 1;
            },
            _ => {},
        }
        late_total = late_total + loans[i].late_payments as i128;
        i += 1;
    }
    let np = payments.len();
    let mut regular: i128 = 0;
    let mut j: usize = 0;
    while j < np
        invariant
            j <= np == payments@.len(),
            regular == regular_count_of(payment_views(payments@.subrange(0, j as int))),
            0 <= regular <= j,
        decreases np - j,
    {
        let ghost pre_models = payment_views(payments@.subrange(0, j as int));
        let ghost m = payments@[j as int]@;
        proof {
            lemma_payment_views(payments@.subrange(0, j as int));
            lemma_payment_views(payments@.subrange(0, j + 1 as int));
            assert(payment_views(payments@.subrange(0, j + 1 as int)) =~= pre_models.push(m));
            assert(pre_models.push(m).drop_last() =~= pre_models);
        }
        match payments[j].payment_type {
            PaymentType::Regular => {
                regular = regular + 1;
            },
            _ => {},
        }
        j += 1;
    }
    proof {
        assert(loans@.subrange(0, n as int) =~= loans@);
        assert(payments@.subrange(0, np as int) =~= payments@);
        vstd::arithmetic::mul::lemma_mul_inequality(late_total as int,
            (usize::MAX as int) * (u32::MAX as int), 5);
        vstd::arithmetic::mul::lemma_mul_upper_bound(n as int, usize::MAX as int,
            u32::MAX as int, u32::MAX as int);
    }
    let impact: i128 = paid_off * 10 - late_total * 5 - defaults * 50 + regular * 2;
    if impact > i32::MAX as i128 {
        i32::MAX
    } else if impact < i32::MIN as i128 {
        i32::MIN
    } else {
        impact as i32
    }
}

/// A borrower's aggregate statistics over their stored loans and payments.
pub fn get_student_loan_stats(storage: &FinanceStorage, student_id: &str) -> (r: StudentLoanStats)
    ensures
        ({
            let ls = crate::storage::student_loans_of(loan_views(storage.loans@), student_id@);
            let ps = crate::storage::student_payments_of(
                payment_views(storage.payments@),
                student_id@,
            );
            &&& r.total_borrowed == borrowed_sum(ls)
            &&& r.current_balance == balance_sum(ls)
            &&& r.total_paid == paid_amount_sum(ps)
            &&& r.active_loans == (if active_count_of(ls) > u32::MAX {
                u32::MAX as int
            } else {
                active_count_of(ls)
            })
            &&& r.completed_loans == (if paid_off_count_of(ls) > u32::MAX {
                u32::MAX as int
            } else {
                paid_off_count_of(ls)
            })
            &&& r.on_time_payments == (if regular_count_of(ps) > u32::MAX {
                u32::MAX as int
            } else {
                regular_count_of(ps)
            })
            &&& r.late_payments == (if late_count_sum(ls) > u32::MAX {
                u32::MAX as int
            } else {
                late_count_sum(ls)
            })
            &&& r.credit_score_impact == spec_credit_impact(ls, ps)
        }),
{
    let loans = storage.get_loans_by_student(student_id);
    let payments = storage.get_payments_by_student(student_id);
    let n = loans.len();
    let mut borrowed: u64 = 0;
    let mut balance: u64 = 0;
    let mut active: i128 = 0;
    let mut completed: i128 = 0;
    let mut late_total: i128 = 0;
    let mut i: usize = 0;
    while i < n
        invariant
            i <= n == loans@.len(),
            borrowed == borrowed_sum(loan_views(loans@.subrange(0, i as int))),
            balance == balance_sum(loan_views(loans@.subrange(0, i as int))),
            active == active_count_of(loan_views(loans@.subrange(0, i as int))),
            completed == paid_off_count_of(loan_views(loans@.subrange(0, i as int))),
            late_total == late_count_sum(loan_views(loans@.subrange(0, i as int))),
            0 <= active <= i,
            0 <= completed <= i,
            0 <= late_total,
            late_total <= (i as int) * (u32::MAX as int),
        decreases n - i,
    {
        let ghost pre_models = loan_views(loans@.subrange(0, i as int));
        let ghost m = loans@[i as int]@;
        proof {
            lemma_loan_views(loans@.subrange(0, i as int));
            lemma_loan_views(loans@.subrange(0, i + 1 as int));
            assert(loan_views(loans@.subrange(0, i + 1 as int)) =~= pre_models.push(m));
            assert(pre_models.push(m).drop_last() =~= pre_models);
            vstd::arithmetic::mul::lemma_mul_inequality(i as int, usize::MAX as int,
                u32::MAX as int);
        }
        borrowed = borrowed.saturating_add(loans[i].original_amount);
        balance = balance.saturating_add(loans[i].current_balance);
        if loans[i].status.is_swept() {
            active = active + 1;
        }
        match loans[i].status {
            LoanStatus::PaidOff => {
                completed = completed + 1;
            },
            _ => {},
        }
        late_total = late_total + loans[i].late_payments as i128;
        i += 1;
    }
    let np = payments.len();
    let mut paid: u64 = 0;
    let mut regular: i128 = 0;
    let mut j: usize = 0;
    while j < np
        invariant
            j <= np == payments@.len(),
            paid == paid_amount_sum(payment_views(payments@.subrange(0, j as int))),
            regular == regular_count_of(payment_views(payments@.subrange(0, j as int))),
            0 <= regular <= j,
        decreases np - j,
    {
        let ghost pre_models = payment_views(payments@.subrange(0, j as int));
        let ghost m = payments@[j as int]@;
        proof {
            lemma_payment_views(payments@.subrange(0, j as int));
            lemma_payment_views(payments@.subrange(0, j + 1 as int));
            assert(payment_views(payments@.subrange(0, j + 1 as int)) =~= pre_models.push(m));
            assert(pre_models.push(m).drop_last() =~= pre_models);
        }
        match payments[j].status {
            PaymentStatus::Completed => {
                paid = paid.saturating_add(payments[j].amount);
            },
            _ => {},
        }
        match payments[j].payment_type {
            PaymentType::Regular => {
                regular = regular + 1;
            },
            _ => {},
        }
        j += 1;
    }
    proof {
        assert(loans@.subrange(0, n as int) =~= loans@);
        assert(payments@.subrange(0, np as int) =~= payments@);
    }
    let credit_score_impact = calculate_credit_impact(&loans, &payments);
    StudentLoanStats {
        total_borrowed: borrowed,
        current_balance: balance,
        total_paid: paid,
        active_loans: if active > u32::MAX as i128 {
            u32::MAX
        } else {
            active as u32
        },
        completed_loans: if completed > u32::MAX as i128 {
            u32::MAX
        } else {
            completed as u32
        },
        on_time_payments: if regular > u32::MAX as i128 {
            u32::MAX
        } else {
            regular as u32
        },
        late_payments: if late_total > u32::MAX as i128 {
            u32::MAX
        } else {
            late_total as u32
        },
        credit_score_impact,
    }
}

/// Platform-wide figures for reporting: the portfolio's active counts and
/// outstanding balances.
pub fn get_platform_stats(storage: &FinanceStorage) -> (r: crate::common::Statistics)
    ensures
        ({
            let stats = crate::storage::spec_treasury_stats(*storage);
            &&& r.total_count == stats.active_loan_count
            &&& r.active_count == stats.active_loan_count
            &&& r.completed_count == 0
            &&& r.failed_count == 0
            &&& r.total_amount == stats.total_loans_outstanding
            &&& r.average_amount == stats.average_loan_size
        }),
{
    let stats = storage.calculate_treasury_stats();
    crate::common::Statistics {
        total_count: stats.active_loan_count,
        active_count: stats.active_loan_count,
        completed_count: 0,
        failed_count: 0,
        total_amount: stats.total_loans_outstanding,
        average_amount: stats.average_loan_size,
    }
}

/// Overwrite a loan's status by administrative decision and stamp the
/// record; a missing loan is reported and changes nothing.
pub fn update_loan_status(
    storage: &mut FinanceStorage,
    loan_id: String,
    new_status: LoanStatus,
    now: Timestamp,
) -> (r: StudiFiResult<Loan>)
    ensures
        r is Ok <==> find_loan(old(storage).loans@, loan_id@) >= 0,
        r matches Err(e) ==> e is NotFound,
        r is Err ==> *final(storage) == *old(storage),
        r matches Ok(l) ==> ({
            let at = find_loan(old(storage).loans@, loan_id@);
            let m = LoanModel {
                status: new_status,
                last_payment_date: Some(now),
                ..old(storage).loans@[at]@
            };
            &&& l@ == m
            &&& loan_views(final(storage).loans@) == loan_views(old(storage).loans@).update(at, m)
        }),
        final(storage).payments == old(storage).payments,
        final(storage).treasury_config == old(storage).treasury_config,
        final(storage).loan_treasury == old(storage).loan_treasury,
        final(storage).scholarship_treasury == old(storage).scholarship_treasury,
        final(storage).protocol_treasury == old(storage).protocol_treasury,
        final(storage).counters == old(storage).counters,
{
    let loan = match storage.get_loan(loan_id.as_str()) {
        Some(l) => l.clone(),
        None => {
            return Err(StudiFiError::NotFound("Loan not found".to_owned()));
        },
    };
    let mut updated = loan;
    updated.status = new_status;
    updated.last_payment_date = Some(now);
    let result = updated.clone();
    let ghost pre_loans = storage.loans@;
    proof {
        lemma_find_loan(pre_loans, loan_id@);
    }
    match storage.update_loan(loan_id, updated) {
        Ok(_) => {},
        Err(_) => {},
    }
    proof {
        let at = find_loan(old(storage).loans@, result@.id);
        lemma_loan_views(pre_loans);
        lemma_loan_views(storage.loans@);
        assert(loan_views(storage.loans@) =~= loan_views(old(storage).loans@).update(
            at,
            result@,
        ));
    }
    Ok(result)
}

} // verus!
