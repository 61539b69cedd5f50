use vstd::prelude::*;

use crate::Amount;
use crate::Timestamp;
use crate::constants::BPS_SCALE;
use crate::errors::StudiFiError;
use crate::errors::StudiFiResult;
use crate::loans::TreasuryConfig;
use crate::storage::FinanceStorage;
use crate::storage::treasury_slot;

verus! {

/// The purpose a pooled reserve serves.
#[derive(Clone, Copy, Debug, PartialEq, Eq, Hash, Structural)]
pub enum TreasuryType {
    Loan,
    Scholarship,
    Protocol,
}

impl Default for TreasuryType {
    /// The loan pool is the treasury of reference.
    fn default() -> (r: TreasuryType)
        ensures
            r is Loan,
    {
        TreasuryType::Loan
    }
}

/// One pooled reserve: its funds, split between available and reserved, and
/// the ratio limits every allocation must respect.
#[derive(Debug)]
pub struct SeparateTreasuryConfig {
    pub treasury_type: TreasuryType,
    pub total_funds: Amount,
    pub available_funds: Amount,
    pub reserved_funds: Amount,
    pub minimum_reserve_bps: u64,
    pub maximum_allocation_bps: u64,
    pub governance_required: bool,
    pub created_at: Timestamp,
    pub last_updated: Timestamp,
}

impl SeparateTreasuryConfig {
    /// Conservation and sane ratios: the split funds never exceed the total,
    /// and both ratio limits are genuine fractions.
    pub open spec fn wf(&self) -> bool {
        &&& self.available_funds + self.reserved_funds <= self.total_funds
        &&& self.minimum_reserve_bps <= BPS_SCALE
        &&& self.maximum_allocation_bps <= BPS_SCALE
    }

    /// The starting configuration of each treasury purpose.
    pub fn new(treasury_type: TreasuryType, now: Timestamp) -> (r: SeparateTreasuryConfig)
        ensures
            r == spec_initial_treasury(treasury_type, now),
            r.wf(),
    {
        match treasury_type {
            TreasuryType::Loan => SeparateTreasuryConfig {
                treasury_type,
                total_funds: 1_000_000_00,
                available_funds: 800_000_00,
                reserved_funds: 200_000_00,
                minimum_reserve_bps: 1_500,
                maximum_allocation_bps: 8_500,
                governance_required: false,
                created_at: now,
                last_updated: now,
            },
            TreasuryType::Scholarship => SeparateTreasuryConfig {
                treasury_type,
                total_funds: 500_000_00,
                available_funds: 500_000_00,
                reserved_funds: 0,
                minimum_reserve_bps: 500,
                maximum_allocation_bps: 9_500,
                governance_required: true,
                created_at: now,
                last_updated: now,
            },
            TreasuryType::Protocol => SeparateTreasuryConfig {
                treasury_type,
                total_funds: 200_000_00,
                available_funds: 150_000_00,
                reserved_funds: 50_000_00,
                minimum_reserve_bps: 1_000,
                maximum_allocation_bps: 9_000,
                governance_required: true,
                created_at: now,
                last_updated: now,
            },
        }
    }
}

/// The configuration each treasury purpose starts with: the loan pool at one
/// million dollars with automated approval, the scholarship and protocol
/// pools smaller and under governance.
pub open spec fn spec_initial_treasury(treasury_type: TreasuryType, now: Timestamp)
    -> SeparateTreasuryConfig {
    match treasury_type {
        TreasuryType::Loan => SeparateTreasuryConfig {
            treasury_type,
            total_funds: 1_000_000_00,
            available_funds: 800_000_00,
            reserved_funds: 200_000_00,
            minimum_reserve_bps: 1_500,
            maximum_allocation_bps: 8_500,
            governance_required: false,
            created_at: now,
            last_updated: now,
        },
        TreasuryType::Scholarship => SeparateTreasuryConfig {
            treasury_type,
            total_funds: 500_000_00,
            available_funds: 500_000_00,
            reserved_funds: 0,
            minimum_reserve_bps: 500,
            maximum_allocation_bps: 9_500,
            governance_required: true,
            created_at: now,
            last_updated: now,
        },
        TreasuryType::Protocol => SeparateTreasuryConfig {
            treasury_type,
            total_funds: 200_000_00,
            available_funds: 150_000_00,
            reserved_funds: 50_000_00,
            minimum_reserve_bps: 1_000,
            maximum_allocation_bps: 9_000,
            governance_required: true,
            created_at: now,
            last_updated: now,
        },
    }
}

/// An allocation of `amount` leaves this treasury within all its limits:
/// the amount is covered by available funds, the reserved share stays at or
/// under the maximum allocation ratio, and the available share stays at or
/// over the minimum reserve ratio.
pub open spec fn allocation_ok(t: SeparateTreasuryConfig, amount: int) -> bool {
    &&& amount <= t.available_funds
    &&& (t.reserved_funds + amount) * (BPS_SCALE as int) <= (t.maximum_allocation_bps as int) * (
    t.total_funds as int)
    &&& (t.available_funds - amount) * (BPS_SCALE as int) >= (t.minimum_reserve_bps as int) * (
    t.total_funds as int)
}

/// The treasury after an allocation: the amount moves from available to
/// reserved; the total is untouched.
pub open spec fn spec_allocate(t: SeparateTreasuryConfig, amount: int, now: Timestamp)
    -> SeparateTreasuryConfig {
    SeparateTreasuryConfig {
        available_funds: (t.available_funds - amount) as u64,
        reserved_funds: (t.reserved_funds + amount) as u64,
        last_updated: now,
        ..t
    }
}

/// The treasury after funds return: the principal moves back from reserved to
/// available, and any revenue grows both the total and the available funds.
pub open spec fn spec_return_funds(
    t: SeparateTreasuryConfig,
    principal: int,
    revenue: int,
    now: Timestamp,
) -> SeparateTreasuryConfig {
    SeparateTreasuryConfig {
        available_funds: (t.available_funds + principal + revenue) as u64,
        reserved_funds: (t.reserved_funds - principal) as u64,
        total_funds: (t.total_funds + revenue) as u64,
        last_updated: now,
        ..t
    }
}

/// The treasury after a default: the lost balance leaves both the reserved
/// funds and the total, each saturating at zero.
pub open spec fn spec_handle_default(t: SeparateTreasuryConfig, balance: int, now: Timestamp)
    -> SeparateTreasuryConfig {
    SeparateTreasuryConfig {
        reserved_funds: if t.reserved_funds >= balance {
            (t.reserved_funds - balance) as u64
        } else {
            0
        },
        total_funds: if t.total_funds >= balance {
            (t.total_funds - balance) as u64
        } else {
            0
        },
        last_updated: now,
        ..t
    }
}

/// The treasury after new funds arrive: total and available both grow.
pub open spec fn spec_add_funds(t: SeparateTreasuryConfig, amount: int, now: Timestamp)
    -> SeparateTreasuryConfig {
    SeparateTreasuryConfig {
        total_funds: (t.total_funds + amount) as u64,
        available_funds: (t.available_funds + amount) as u64,
        last_updated: now,
        ..t
    }
}

/// The treasury after sending a transfer out: total and available both shrink.
pub open spec fn spec_transfer_out(t: SeparateTreasuryConfig, amount: int, now: Timestamp)
    -> SeparateTreasuryConfig {
    SeparateTreasuryConfig {
        total_funds: (t.total_funds - amount) as u64,
        available_funds: (t.available_funds - amount) as u64,
        last_updated: now,
        ..t
    }
}

/// One ledger operation on a single treasury, with the amounts it carries.
pub enum TreasuryOp {
    Allocate { amount: u64 },
    ReturnFunds { principal: u64, revenue: u64 },
    HandleDefault { balance: u64 },
    AddFunds { amount: u64 },
    TransferOut { amount: u64 },
    TransferIn { amount: u64 },
}

/// Whether the ledger accepts the operation on this treasury: the same
/// validate-then-mutate checks each operation runs before writing.
pub open spec fn op_accepted(t: SeparateTreasuryConfig, op: TreasuryOp) -> bool {
    match op {
        TreasuryOp::Allocate { amount } => allocation_ok(t, amount as int),
        TreasuryOp::ReturnFunds { principal, revenue } => principal <= t.reserved_funds
            && t.total_funds + revenue <= u64::MAX,
        TreasuryOp::HandleDefault { balance } => true,
        TreasuryOp::AddFunds { amount } => t.total_funds + amount <= u64::MAX,
        TreasuryOp::TransferOut { amount } => amount <= t.available_funds,
        TreasuryOp::TransferIn { amount } => t.total_funds + amount <= u64::MAX,
    }
}

/// The treasury after one accepted operation; a refused operation leaves it
/// unchanged.
pub open spec fn apply_op(t: SeparateTreasuryConfig, op: TreasuryOp, now: Timestamp)
    -> SeparateTreasuryConfig {
    if !op_accepted(t, op) {
        t
    } else {
        match op {
            TreasuryOp::Allocate { amount } => spec_allocate(t, amount as int, now),
            TreasuryOp::ReturnFunds { principal, revenue } => spec_return_funds(t,
                principal as int, revenue as int, now),
            TreasuryOp::HandleDefault { balance } => spec_handle_default(t, balance as int, now),
            TreasuryOp::AddFunds { amount } => spec_add_funds(t, amount as int, now),
            TreasuryOp::TransferOut { amount } => spec_transfer_out(t, amount as int, now),
            TreasuryOp::TransferIn { amount } => spec_add_funds(t, amount as int, now),
        }
    }
}

/// The treasury after a whole sequence of operations, applied in order.
pub open spec fn apply_ops(t: SeparateTreasuryConfig, ops: Seq<TreasuryOp>, now: Timestamp)
    -> SeparateTreasuryConfig
    decreases ops.len(),
{
    if ops.len() == 0 {
        t
    } else {
        apply_ops(apply_op(t, ops.first(), now), ops.drop_first(), now)
    }
}

/// Every default in the sequence is covered by the reserved funds of the
/// treasury it hits.
pub open spec fn defaults_covered(t: SeparateTreasuryConfig, ops: Seq<TreasuryOp>, now: Timestamp)
    -> bool
    decreases ops.len(),
{
    if ops.len() == 0 {
        true
    } else {
        let covered = match ops.first() {
            TreasuryOp::HandleDefault { balance } => balance <= t.reserved_funds,
            _ => true,
        };
        covered && defaults_covered(apply_op(t, ops.first(), now), ops.drop_first(), now)
    }
}

/// One accepted operation keeps the treasury well formed, as long as a default
/// never exceeds the reserved funds.
/// An accepted allocation keeps the reserved funds within the total.
pub proof fn lemma_allocation_fits(t: SeparateTreasuryConfig, amount: int)
    requires
        t.wf(),
        allocation_ok(t, amount),
    ensures
        t.reserved_funds + amount <= t.total_funds,
{
    let s = BPS_SCALE as int;
    assert((t.reserved_funds + amount) * s <= (t.maximum_allocation_bps as int) * (
    t.total_funds as int));
    assert((t.maximum_allocation_bps as int) * (t.total_funds as int) <= s * (
    t.total_funds as int)) by {
        vstd::arithmetic::mul::lemma_mul_inequality(t.maximum_allocation_bps as int, s,
            t.total_funds as int);
    }
    assert((t.reserved_funds + amount) * s <= s * (t.total_funds as int));
    assert(t.reserved_funds + amount <= t.total_funds) by (nonlinear_arith)
        requires
            (t.reserved_funds + amount) * s <= s * (t.total_funds as int),
            s > 0,
    ;
}

pub proof fn lemma_op_preserves_wf(t: SeparateTreasuryConfig, op: TreasuryOp, now: Timestamp)
    requires
        t.wf(),
        op matches TreasuryOp::HandleDefault { balance } ==> balance <= t.reserved_funds,
    ensures
        apply_op(t, op, now).wf(),
{
    if op_accepted(t, op) {
        match op {
            TreasuryOp::Allocate { amount } => {
                lemma_allocation_fits(t, amount as int);
            },
            _ => {},
        }
    }
}

/// Conservation: however long the sequence of accepted or refused ledger
/// operations, the split funds never exceed the total, provided every default
/// stays within the reserved funds of the treasury it hits.
pub proof fn lemma_conservation(t: SeparateTreasuryConfig, ops: Seq<TreasuryOp>, now: Timestamp)
    requires
        t.wf(),
        defaults_covered(t, ops, now),
    ensures
        apply_ops(t, ops, now).wf(),
        apply_ops(t, ops, now).available_funds + apply_ops(t, ops, now).reserved_funds <= apply_ops(
            t,
            ops,
            now,
        ).total_funds,
    decreases ops.len(),
{
    if ops.len() > 0 {
        lemma_op_preserves_wf(t, ops.first(), now);
        lemma_conservation(apply_op(t, ops.first(), now), ops.drop_first(), now);
    }
}

/// Ratio invariants: an allocation the checks accept leaves the reserved
/// share at or under the maximum allocation ratio and the available share at
/// or over the minimum reserve ratio.
pub proof fn lemma_allocate_ratios(t: SeparateTreasuryConfig, amount: u64, now: Timestamp)
    requires
        t.wf(),
        allocation_ok(t, amount as int),
    ensures
        ({
            let u = spec_allocate(t, amount as int, now);
            &&& u.wf()
            &&& (u.reserved_funds as int) * (BPS_SCALE as int) <= (u.maximum_allocation_bps as int)
                * (u.total_funds as int)
            &&& (u.available_funds as int) * (BPS_SCALE as int) >= (u.minimum_reserve_bps as int)
                * (u.total_funds as int)
            &&& u.total_funds == t.total_funds
        }),
{
    lemma_op_preserves_wf(t, TreasuryOp::Allocate { amount }, now);
    assert(apply_op(t, TreasuryOp::Allocate { amount }, now) == spec_allocate(t, amount as int,
        now));
}


/// Both ratio limits hold for an allocation of `amount` from `t`.
fn ratios_within(t: &SeparateTreasuryConfig, amount: Amount) -> (r: bool)
    requires
        amount <= t.available_funds,
    ensures
        r == ((t.reserved_funds + amount) * (BPS_SCALE as int) <= (t.maximum_allocation_bps as int)
            * (t.total_funds as int) && (t.available_funds - amount) * (BPS_SCALE as int) >= (
        t.minimum_reserve_bps as int) * (t.total_funds as int)),
{
    proof {
        vstd::arithmetic::mul::lemma_mul_upper_bound(t.reserved_funds as int + amount as int,
            2 * (u64::MAX as int), BPS_SCALE as int, BPS_SCALE as int);
        vstd::arithmetic::mul::lemma_mul_upper_bound(t.maximum_allocation_bps as int,
            u64::MAX as int, t.total_funds as int, u64::MAX as int);
        vstd::arithmetic::mul::lemma_mul_upper_bound(t.available_funds as int - amount as int,
            u64::MAX as int, BPS_SCALE as int, BPS_SCALE as int);
        vstd::arithmetic::mul::lemma_mul_upper_bound(t.minimum_reserve_bps as int,
            u64::MAX as int, t.total_funds as int, u64::MAX as int);
    }
    let alloc_ok = (t.reserved_funds as u128 + amount as u128) * (BPS_SCALE as u128) <= (
    t.maximum_allocation_bps as u128) * (t.total_funds as u128);
    let reserve_ok = ((t.available_funds - amount) as u128) * (BPS_SCALE as u128) >= (
    t.minimum_reserve_bps as u128) * (t.total_funds as u128);
    alloc_ok && reserve_ok
}

/// Ratio-enforcing operations over the stored treasuries.
pub struct TreasuryEngine;

impl TreasuryEngine {
    /// Whether the loan treasury can fund a loan of `loan_amount` within its
    /// ratio limits.
    pub fn check_loan_eligibility(storage: &FinanceStorage, loan_amount: Amount) -> (r:
        StudiFiResult<()>)
        ensures
            r is Ok <==> (storage.loan_treasury matches Some(t) && allocation_ok(
                t,
                loan_amount as int,
            )),
            r matches Err(e) ==> (if storage.loan_treasury is None {
                e is NotFound
            } else {
                e is InsufficientFunds
            }),
    {
        let t = match storage.get_separate_treasury_config(&TreasuryType::Loan) {
            Some(t) => t,
            None => {
                return Err(StudiFiError::NotFound("Treasury not found".to_owned()));
            },
        };
        if loan_amount > t.available_funds {
            return Err(StudiFiError::InsufficientFunds(
                "Requested amount exceeds available loan funds".to_owned(),
            ));
        }
        if !ratios_within(t, loan_amount) {
            return Err(StudiFiError::InsufficientFunds(
                "Loan would violate the loan treasury's ratio limits".to_owned(),
            ));
        }
        Ok(())
    }

    /// The stored configuration of one treasury purpose.
    pub fn get_treasury_config(storage: &FinanceStorage, treasury_type: TreasuryType) -> (r:
        StudiFiResult<SeparateTreasuryConfig>)
        ensures
            r is Ok <==> treasury_slot(*storage, treasury_type) is Some,
            r matches Ok(c) ==> treasury_slot(*storage, treasury_type) == Some(c),
            r matches Err(e) ==> e is NotFound,
    {
        match storage.get_separate_treasury_config(&treasury_type) {
            Some(c) => Ok(c.clone()),
            None => Err(StudiFiError::NotFound("Treasury not found".to_owned())),
        }
    }

    /// Give every treasury purpose its starting configuration.
    pub fn initialize_treasuries(storage: &mut FinanceStorage, now: Timestamp) -> (r:
        StudiFiResult<()>)
        ensures
            r is Ok,
            final(storage).loan_treasury == Some(spec_initial_treasury(TreasuryType::Loan, now)),
            final(storage).scholarship_treasury == Some(
                spec_initial_treasury(TreasuryType::Scholarship, now),
            ),
            final(storage).protocol_treasury == Some(
                spec_initial_treasury(TreasuryType::Protocol, now),
            ),
            final(storage).loans == old(storage).loans,
            final(storage).payments == old(storage).payments,
            final(storage).treasury_config == old(storage).treasury_config,
            final(storage).counters == old(storage).counters,
    {
        storage.set_separate_treasury_config(SeparateTreasuryConfig::new(TreasuryType::Loan, now));
        storage.set_separate_treasury_config(
            SeparateTreasuryConfig::new(TreasuryType::Scholarship, now),
        );
        storage.set_separate_treasury_config(
            SeparateTreasuryConfig::new(TreasuryType::Protocol, now),
        );
        Ok(())
    }

    /// Whether `amount` may be allocated from the treasury of `treasury_type`,
    /// under its governance requirement and ratio limits.
    pub fn check_allocation_eligibility(
        storage: &FinanceStorage,
        treasury_type: TreasuryType,
        amount: Amount,
        governance_approved: bool,
    ) -> (r: StudiFiResult<()>)
        ensures
            r is Ok <==> (treasury_slot(*storage, treasury_type) matches Some(t) && (
            t.governance_required ==> governance_approved) && allocation_ok(t, amount as int)),
            r matches Err(e) ==> (match treasury_slot(*storage, treasury_type) {
                None => e is NotFound,
                Some(t) => if t.governance_required && !governance_approved {
                    e is Unauthorized
                } else {
                    e is InsufficientFunds
                },
            }),
    {
        let t = match storage.get_separate_treasury_config(&treasury_type) {
            Some(t) => t,
            None => {
                return Err(StudiFiError::NotFound("Treasury not found".to_owned()));
            },
        };
        if t.governance_required && !governance_approved {
            return Err(StudiFiError::Unauthorized(
                "Governance approval required for treasury allocations".to_owned(),
            ));
        }
        if amount > t.available_funds {
            return Err(StudiFiError::InsufficientFunds(
                "Insufficient funds in treasury".to_owned(),
            ));
        }
        if !ratios_within(t, amount) {
            return Err(StudiFiError::InsufficientFunds(
                "Allocation would violate the treasury's ratio limits".to_owned(),
            ));
        }
        Ok(())
    }

    /// Reserve `loan_amount` in the loan treasury for a new loan: the checks
    /// run first, and a refused allocation changes nothing.
    pub fn allocate_loan_funds(storage: &mut FinanceStorage, loan_amount: Amount, now: Timestamp)
        -> (r: StudiFiResult<()>)
        requires
            crate::storage::treasuries_wf(*old(storage)),
        ensures
            crate::storage::treasuries_wf(*final(storage)),
            r is Ok <==> (old(storage).loan_treasury matches Some(t) && allocation_ok(
                t,
                loan_amount as int,
            )),
            r matches Err(e) ==> (if old(storage).loan_treasury is None {
                e is NotFound
            } else {
                e is InsufficientFunds
            }),
            r is Err ==> *final(storage) == *old(storage),
            r is Ok ==> final(storage).loan_treasury == Some(
                spec_allocate(old(storage).loan_treasury->0, loan_amount as int, now),
            ),
            final(storage).scholarship_treasury == old(storage).scholarship_treasury,
            final(storage).protocol_treasury == old(storage).protocol_treasury,
            final(storage).loans == old(storage).loans,
            final(storage).payments == old(storage).payments,
            final(storage).treasury_config == old(storage).treasury_config,
            final(storage).counters == old(storage).counters,
    {
        match Self::check_loan_eligibility(storage, loan_amount) {
            Ok(()) => {},
            Err(e) => {
                return Err(e);
            },
        }
        let t = match storage.get_separate_treasury_config(&TreasuryType::Loan) {
            Some(t) => t.clone(),
            None => {
                return Err(StudiFiError::NotFound("Treasury not found".to_owned()));
            },
        };
        proof {
            lemma_allocation_fits(t, loan_amount as int);
        }
        let updated = SeparateTreasuryConfig {
            available_funds: t.available_funds - loan_amount,
            reserved_funds: t.reserved_funds + loan_amount,
            last_updated: now,
            ..t
        };
        storage.set_separate_treasury_config(updated);
        proof {
            assert(treasury_slot(*storage, TreasuryType::Scholarship) == treasury_slot(
                *old(storage),
                TreasuryType::Scholarship,
            ));
            assert(treasury_slot(*storage, TreasuryType::Protocol) == treasury_slot(
                *old(storage),
                TreasuryType::Protocol,
            ));
            assert(treasury_slot(*storage, TreasuryType::Loan) == Some(updated));
        }
        Ok(())
    }

    /// Reserve `amount` in the treasury of `treasury_type`, under its
    /// governance requirement; a refused allocation changes nothing.
    pub fn allocate_treasury_funds(
        storage: &mut FinanceStorage,
        treasury_type: TreasuryType,
        amount: Amount,
        _purpose: String,
        governance_approved: bool,
        now: Timestamp,
    ) -> (r: StudiFiResult<()>)
        requires
            crate::storage::treasuries_wf(*old(storage)),
        ensures
            crate::storage::treasuries_wf(*final(storage)),
            r is Ok <==> (treasury_slot(*old(storage), treasury_type) matches Some(t) && (
            t.governance_required ==> governance_approved) && allocation_ok(t, amount as int)),
            r matches Err(e) ==> (match treasury_slot(*old(storage), treasury_type) {
                None => e is NotFound,
                Some(t) => if t.governance_required && !governance_approved {
                    e is Unauthorized
                } else {
                    e is InsufficientFunds
                },
            }),
            r is Err ==> *final(storage) == *old(storage),
            r is Ok ==> treasury_slot(*final(storage), treasury_type) == Some(
                spec_allocate(treasury_slot(*old(storage), treasury_type)->0, amount as int, now),
            ),
            forall|u: TreasuryType|
                u != treasury_type ==> treasury_slot(*final(storage), u) == treasury_slot(
                    *old(storage),
                    u,
                ),
            final(storage).loans == old(storage).loans,
            final(storage).payments == old(storage).payments,
            final(storage).treasury_config == old(storage).treasury_config,
            final(storage).counters == old(storage).counters,
    {
        match Self::check_allocation_eligibility(storage, treasury_type, amount,
            governance_approved) {
            Ok(()) => {},
            Err(e) => {
                return Err(e);
            },
        }
        let t = match storage.get_separate_treasury_config(&treasury_type) {
            Some(t) => t.clone(),
            None => {
                return Err(StudiFiError::NotFound("Treasury not found".to_owned()));
            },
        };
        proof {
            lemma_allocation_fits(t, amount as int);
        }
        let updated = SeparateTreasuryConfig {
            available_funds: t.available_funds - amount,
            reserved_funds: t.reserved_funds + amount,
            last_updated: now,
            ..t
        };
        storage.set_separate_treasury_config(updated);
        proof {
            lemma_slot_cases(*storage, *old(storage), updated);
        }
        Ok(())
    }

    /// Grow one treasury by `amount` of new money; an addition that would
    /// overflow the total is refused and changes nothing. A treasury not yet
    /// initialized starts from its standard configuration.
    pub fn add_treasury_funds(
        storage: &mut FinanceStorage,
        treasury_type: TreasuryType,
        amount: Amount,
        _source: String,
        now: Timestamp,
    ) -> (r: StudiFiResult<()>)
        requires
            crate::storage::treasuries_wf(*old(storage)),
        ensures
            crate::storage::treasuries_wf(*final(storage)),
            r is Ok <==> slot_or_initial(*old(storage), treasury_type, now).total_funds + amount
                <= u64::MAX,
            r is Ok ==> treasury_slot(*final(storage), treasury_type) == Some(
                spec_add_funds(
                    slot_or_initial(*old(storage), treasury_type, now),
                    amount as int,
                    now,
                ),
            ),
            forall|u: TreasuryType|
                u != treasury_type ==> treasury_slot(*final(storage), u) == treasury_slot(
                    *old(storage),
                    u,
                ),
            r is Err ==> *final(storage) == *old(storage),
            r matches Err(e) ==> e is InvalidInput,
            final(storage).loans == old(storage).loans,
            final(storage).payments == old(storage).payments,
            final(storage).treasury_config == old(storage).treasury_config,
            final(storage).counters == old(storage).counters,
    {
        let base = match storage.get_separate_treasury_config(&treasury_type) {
            Some(t) => t.clone(),
            None => SeparateTreasuryConfig::new(treasury_type, now),
        };
        if amount > u64::MAX - base.total_funds {
            return Err(StudiFiError::InvalidInput(
                "Addition would overflow the treasury total".to_owned(),
            ));
        }
        let updated = SeparateTreasuryConfig {
            total_funds: base.total_funds + amount,
            available_funds: base.available_funds + amount,
            last_updated: now,
            ..base
        };
        storage.set_separate_treasury_config(updated);
        proof {
            lemma_slot_cases(*storage, *old(storage), updated);
        }
        Ok(())
    }

    /// Move `amount` between two treasuries, total and available on both
    /// sides; governance approval is required unconditionally, and a refused
    /// transfer changes nothing.
    pub fn transfer_between_treasuries(
        storage: &mut FinanceStorage,
        from_treasury: TreasuryType,
        to_treasury: TreasuryType,
        amount: Amount,
        governance_approved: bool,
        now: Timestamp,
    ) -> (r: StudiFiResult<()>)
        requires
            crate::storage::treasuries_wf(*old(storage)),
        ensures
            crate::storage::treasuries_wf(*final(storage)),
            ({
                let from_slot = treasury_slot(*old(storage), from_treasury);
                let mid = spec_transfer_out(from_slot->0, amount as int, now);
                let base_to = if to_treasury == from_treasury {
                    mid
                } else {
                    slot_or_initial(*old(storage), to_treasury, now)
                };
                &&& (r is Ok <==> governance_approved && from_slot is Some && amount
                    <= from_slot->0.available_funds && base_to.total_funds + amount <= u64::MAX)
                &&& (r is Ok && from_treasury != to_treasury ==> treasury_slot(
                    *final(storage),
                    from_treasury,
                ) == Some(mid) && treasury_slot(*final(storage), to_treasury) == Some(
                    spec_add_funds(base_to, amount as int, now),
                ))
                &&& (r is Ok && from_treasury == to_treasury ==> treasury_slot(
                    *final(storage),
                    from_treasury,
                ) == Some(spec_add_funds(mid, amount as int, now)))
                &&& (r matches Err(e) ==> (if !governance_approved {
                    e is Unauthorized
                } else if from_slot is None {
                    e is NotFound
                } else if amount > from_slot->0.available_funds {
                    e is InsufficientFunds
                } else {
                    e is InvalidInput
                }))
            }),
            forall|u: TreasuryType|
                u != from_treasury && u != to_treasury ==> treasury_slot(*final(storage), u)
                    == treasury_slot(*old(storage), u),
            r is Err ==> *final(storage) == *old(storage),
            final(storage).loans == old(storage).loans,
            final(storage).payments == old(storage).payments,
            final(storage).treasury_config == old(storage).treasury_config,
            final(storage).counters == old(storage).counters,
    {
        if !governance_approved {
            return Err(StudiFiError::Unauthorized(
                "Governance approval required for inter-treasury transfers".to_owned(),
            ));
        }
        let from_cfg = match storage.get_separate_treasury_config(&from_treasury) {
            Some(t) => t.clone(),
            None => {
                return Err(StudiFiError::NotFound("Treasury not found".to_owned()));
            },
        };
        if amount > from_cfg.available_funds {
            return Err(StudiFiError::InsufficientFunds(
                "Insufficient funds in source treasury".to_owned(),
            ));
        }
        let out_cfg = SeparateTreasuryConfig {
            total_funds: from_cfg.total_funds - amount,
            available_funds: from_cfg.available_funds - amount,
            last_updated: now,
            ..from_cfg
        };
        let same = match (&from_treasury, &to_treasury) {
            (TreasuryType::Loan, TreasuryType::Loan) => true,
            (TreasuryType::Scholarship, TreasuryType::Scholarship) => true,
            (TreasuryType::Protocol, TreasuryType::Protocol) => true,
            _ => false,
        };
        let base_to = if same {
            out_cfg.clone()
        } else {
            match storage.get_separate_treasury_config(&to_treasury) {
                Some(t) => t.clone(),
                None => SeparateTreasuryConfig::new(to_treasury, now),
            }
        };
        if amount > u64::MAX - base_to.total_funds {
            return Err(StudiFiError::InvalidInput(
                "Transfer would overflow the destination treasury".to_owned(),
            ));
        }
        let in_cfg = SeparateTreasuryConfig {
            total_funds: base_to.total_funds + amount,
            available_funds: base_to.available_funds + amount,
            last_updated: now,
            ..base_to
        };
        storage.set_separate_treasury_config(out_cfg);
        let ghost mid_state = *storage;
        storage.set_separate_treasury_config(in_cfg);
        proof {
            lemma_slot_cases(mid_state, *old(storage), out_cfg);
            lemma_slot_cases(*storage, mid_state, in_cfg);
        }
        Ok(())
    }

    /// Credit a loan payment to the loan treasury: the principal moves back
    /// from reserved to available, interest and fees grow the pool as
    /// revenue. A credit the pool cannot absorb is refused and changes
    /// nothing.
    pub fn process_payment_to_treasury(
        storage: &mut FinanceStorage,
        principal_portion: Amount,
        interest_portion: Amount,
        late_fee: Amount,
        now: Timestamp,
    ) -> (r: StudiFiResult<()>)
        requires
            crate::storage::treasuries_wf(*old(storage)),
        ensures
            crate::storage::treasuries_wf(*final(storage)),
            ({
                let base = slot_or_initial(*old(storage), TreasuryType::Loan, now);
                &&& (r is Ok <==> interest_portion + late_fee <= u64::MAX && principal_portion
                    <= base.reserved_funds && base.total_funds + interest_portion + late_fee
                    <= u64::MAX)
                &&& (r is Ok ==> final(storage).loan_treasury == Some(
                    spec_return_funds(
                        base,
                        principal_portion as int,
                        interest_portion + late_fee,
                        now,
                    ),
                ))
            }),
            final(storage).scholarship_treasury == old(storage).scholarship_treasury,
            final(storage).protocol_treasury == old(storage).protocol_treasury,
            r is Err ==> *final(storage) == *old(storage),
            r matches Err(e) ==> e is InternalError,
            final(storage).loans == old(storage).loans,
            final(storage).payments == old(storage).payments,
            final(storage).treasury_config == old(storage).treasury_config,
            final(storage).counters == old(storage).counters,
    {
        if late_fee > u64::MAX - interest_portion {
            return Err(StudiFiError::InternalError(
                "Payment revenue overflows the treasury".to_owned(),
            ));
        }
        let revenue = interest_portion + late_fee;
        let r = Self::return_treasury_funds(storage, TreasuryType::Loan, principal_portion,
            revenue, now);
        proof {
            assert(treasury_slot(*storage, TreasuryType::Scholarship) == treasury_slot(
                *old(storage),
                TreasuryType::Scholarship,
            ));
            assert(treasury_slot(*storage, TreasuryType::Protocol) == treasury_slot(
                *old(storage),
                TreasuryType::Protocol,
            ));
        }
        r
    }

    /// Return `amount` of principal from reserved to available in one
    /// treasury, and record `revenue` as growth of the pool. A return the
    /// pool cannot absorb is refused and changes nothing.
    pub fn return_treasury_funds(
        storage: &mut FinanceStorage,
        treasury_type: TreasuryType,
        amount: Amount,
        revenue: Amount,
        now: Timestamp,
    ) -> (r: StudiFiResult<()>)
        requires
            crate::storage::treasuries_wf(*old(storage)),
        ensures
            crate::storage::treasuries_wf(*final(storage)),
            ({
                let base = slot_or_initial(*old(storage), treasury_type, now);
                &&& (r is Ok <==> amount <= base.reserved_funds && base.total_funds + revenue
                    <= u64::MAX)
                &&& (r is Ok ==> treasury_slot(*final(storage), treasury_type) == Some(
                    spec_return_funds(base, amount as int, revenue as int, now),
                ))
            }),
            forall|u: TreasuryType|
                u != treasury_type ==> treasury_slot(*final(storage), u) == treasury_slot(
                    *old(storage),
                    u,
                ),
            r is Err ==> *final(storage) == *old(storage),
            r matches Err(e) ==> e is InternalError,
            final(storage).loans == old(storage).loans,
            final(storage).payments == old(storage).payments,
            final(storage).treasury_config == old(storage).treasury_config,
            final(storage).counters == old(storage).counters,
    {
        let base = match storage.get_separate_treasury_config(&treasury_type) {
            Some(t) => t.clone(),
            None => SeparateTreasuryConfig::new(treasury_type, now),
        };
        if amount > base.reserved_funds {
            return Err(StudiFiError::InternalError(
                "Returned principal exceeds the reserved funds".to_owned(),
            ));
        }
        if revenue > u64::MAX - base.total_funds {
            return Err(StudiFiError::InternalError(
                "Revenue would overflow the treasury total".to_owned(),
            ));
        }
        let updated = SeparateTreasuryConfig {
            available_funds: base.available_funds + amount + revenue,
            reserved_funds: base.reserved_funds - amount,
            total_funds: base.total_funds + revenue,
            last_updated: now,
            ..base
        };
        storage.set_separate_treasury_config(updated);
        proof {
            lemma_slot_cases(*storage, *old(storage), updated);
        }
        Ok(())
    }

    /// Write a defaulted balance off the pooled treasury: reserved and total
    /// funds each drop by the lost balance, saturating at zero.
    pub fn handle_loan_default(storage: &mut FinanceStorage, remaining_balance: Amount) -> (r:
        StudiFiResult<()>)
        ensures
            r is Ok,
            final(storage).treasury_config == (TreasuryConfig {
                reserved_funds: if old(storage).treasury_config.reserved_funds >= remaining_balance {
                    (old(storage).treasury_config.reserved_funds - remaining_balance) as u64
                } else {
                    0
                },
                total_funds: if old(storage).treasury_config.total_funds >= remaining_balance {
                    (old(storage).treasury_config.total_funds - remaining_balance) as u64
                } else {
                    0
                },
                ..old(storage).treasury_config
            }),
            final(storage).loans == old(storage).loans,
            final(storage).payments == old(storage).payments,
            final(storage).loan_treasury == old(storage).loan_treasury,
            final(storage).scholarship_treasury == old(storage).scholarship_treasury,
            final(storage).protocol_treasury == old(storage).protocol_treasury,
            final(storage).counters == old(storage).counters,
    {
        let mut config = storage.get_treasury_config();
        config.reserved_funds = config.reserved_funds.saturating_sub(remaining_balance);
        config.total_funds = config.total_funds.saturating_sub(remaining_balance);
        storage.set_treasury_config(config);
        Ok(())
    }

    /// Retarget the pooled treasury's split from its configured ratios and
    /// the outstanding loan balance; a treasury with automatic rebalancing
    /// switched off is left alone.
    pub fn rebalance_treasury(storage: &mut FinanceStorage, now: Timestamp) -> (r: StudiFiResult<
        (),
    >)
        ensures
            r is Ok,
            !old(storage).treasury_config.auto_rebalance_enabled ==> *final(storage) == *old(
                storage,
            ),
            old(storage).treasury_config.auto_rebalance_enabled ==> final(storage).treasury_config
                == spec_rebalanced(
                old(storage).treasury_config,
                crate::storage::sum_outstanding(crate::storage::loan_views(old(storage).loans@)),
                now,
            ),
            final(storage).loans == old(storage).loans,
            final(storage).payments == old(storage).payments,
            final(storage).loan_treasury == old(storage).loan_treasury,
            final(storage).scholarship_treasury == old(storage).scholarship_treasury,
            final(storage).protocol_treasury == old(storage).protocol_treasury,
            final(storage).counters == old(storage).counters,
    {
        let config = storage.get_treasury_config();
        if !config.auto_rebalance_enabled {
            return Ok(());
        }
        let stats = storage.calculate_treasury_stats();
        proof {
            vstd::arithmetic::mul::lemma_mul_upper_bound(config.total_funds as int,
                u64::MAX as int, config.minimum_reserve_bps as int, u64::MAX as int);
            vstd::arithmetic::mul::lemma_mul_upper_bound(config.total_funds as int,
                u64::MAX as int, config.emergency_fund_bps as int, u64::MAX as int);
            vstd::arithmetic::mul::lemma_mul_upper_bound(config.total_funds as int,
                u64::MAX as int, config.interest_reserve_bps as int, u64::MAX as int);
        }
        let target_reserve: u128 = (config.total_funds as u128)
            * (config.minimum_reserve_bps as u128) / (BPS_SCALE as u128);
        let target_emergency: u128 = (config.total_funds as u128)
            * (config.emergency_fund_bps as u128) / (BPS_SCALE as u128);
        let target_interest: u128 = (config.total_funds as u128)
            * (config.interest_reserve_bps as u128) / (BPS_SCALE as u128);
        let needed: u128 = target_reserve + target_emergency + target_interest;
        let available_for_loans: u64 = if (config.total_funds as u128) >= needed {
            (config.total_funds as u128 - needed) as u64
        } else {
            0
        };
        let outstanding = stats.total_loans_outstanding;
        let updated = TreasuryConfig {
            available_funds: if available_for_loans >= outstanding {
                available_for_loans - outstanding
            } else {
                0
            },
            reserved_funds: outstanding,
            last_rebalance: now,
            ..config
        };
        storage.set_treasury_config(updated);
        Ok(())
    }
}

/// The pooled treasury after a rebalance: reserves are retargeted from the
/// configured ratios, the outstanding balance is reserved, and what is left
/// becomes available; every subtraction floors at zero.
pub open spec fn spec_rebalanced(c: TreasuryConfig, outstanding: int, now: Timestamp)
    -> TreasuryConfig {
    let target_reserve = (c.total_funds as int) * (c.minimum_reserve_bps as int) / (
    BPS_SCALE as int);
    let target_emergency = (c.total_funds as int) * (c.emergency_fund_bps as int) / (
    BPS_SCALE as int);
    let target_interest = (c.total_funds as int) * (c.interest_reserve_bps as int) / (
    BPS_SCALE as int);
    let needed = target_reserve + target_emergency + target_interest;
    let available_for_loans = if c.total_funds >= needed {
        c.total_funds - needed
    } else {
        0
    };
    TreasuryConfig {
        available_funds: (if available_for_loans >= outstanding {
            available_for_loans - outstanding
        } else {
            0
        }) as u64,
        reserved_funds: outstanding as u64,
        last_rebalance: now,
        ..c
    }
}

/// The stored treasury of `treasury_type`, or its standard starting
/// configuration where none was initialized yet.
pub open spec fn slot_or_initial(s: FinanceStorage, treasury_type: TreasuryType, now: Timestamp)
    -> SeparateTreasuryConfig {
    match treasury_slot(s, treasury_type) {
        Some(c) => c,
        None => spec_initial_treasury(treasury_type, now),
    }
}

/// After filing `updated`, its own slot holds it and every other slot is
/// untouched.
proof fn lemma_slot_cases(
    post: FinanceStorage,
    pre: FinanceStorage,
    updated: SeparateTreasuryConfig,
)
    requires
        treasury_slot(post, updated.treasury_type) == Some(updated),
        forall|u: TreasuryType|
            u != updated.treasury_type ==> treasury_slot(post, u) == treasury_slot(pre, u),
    ensures
        treasury_slot(post, TreasuryType::Loan) == (if TreasuryType::Loan == updated.treasury_type {
            Some(updated)
        } else {
            treasury_slot(pre, TreasuryType::Loan)
        }),
        treasury_slot(post, TreasuryType::Scholarship) == (if TreasuryType::Scholarship
            == updated.treasury_type {
            Some(updated)
        } else {
            treasury_slot(pre, TreasuryType::Scholarship)
        }),
        treasury_slot(post, TreasuryType::Protocol) == (if TreasuryType::Protocol
            == updated.treasury_type {
            Some(updated)
        } else {
            treasury_slot(pre, TreasuryType::Protocol)
        }),
{
}

impl Clone for SeparateTreasuryConfig {
    /// A clone is equal to the original: every field is a plain value.
    fn clone(&self) -> (r: SeparateTreasuryConfig)
        ensures
            r == *self,
    {
        SeparateTreasuryConfig {
            treasury_type: self.treasury_type,
            total_funds: self.total_funds,
            available_funds: self.available_funds,
            reserved_funds: self.reserved_funds,
            minimum_reserve_bps: self.minimum_reserve_bps,
            maximum_allocation_bps: self.maximum_allocation_bps,
            governance_required: self.governance_required,
            created_at: self.created_at,
            last_updated: self.last_updated,
        }
    }
}

} // verus!
