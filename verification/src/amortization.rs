use vstd::prelude::*;

use crate::Amount;
use crate::constants::MAX_INTEREST_RATE_BPS;
use crate::constants::MAX_LOAN_TERM_MONTHS;
use vstd::arithmetic::div_mod::lemma_div_is_ordered;
use vstd::arithmetic::div_mod::lemma_div_is_ordered_by_denominator;
use vstd::arithmetic::div_mod::lemma_div_nonincreasing;
use vstd::arithmetic::div_mod::lemma_div_pos_is_pos;
use vstd::arithmetic::mul::lemma_mul_inequality;
use vstd::arithmetic::mul::lemma_mul_upper_bound;

verus! {

/// Scale of the fixed-point fractions used by the amortization formula: this
/// many fixed-point units make 1.0.
pub const FP_SCALE: u64 = 1_000_000_000;

/// Fixed-point product: both factors carry the scale, the result does too.
pub open spec fn fp_mul(a: int, b: int) -> int {
    a * b / (FP_SCALE as int)
}

/// Fixed-point power: `x` scaled by `FP_SCALE`, raised to `k`.
pub open spec fn fp_pow(x: int, k: nat) -> int
    decreases k,
{
    if k == 0 {
        FP_SCALE as int
    } else {
        fp_mul(fp_pow(x, (k - 1) as nat), x)
    }
}

/// The monthly rate, in fixed-point units, of an annual rate in basis points.
pub open spec fn monthly_rate_fp(annual_bps: int) -> int {
    annual_bps * (FP_SCALE as int) / 120_000
}

/// The amortization formula over the integers: for a zero rate, the principal
/// split evenly with the remainder rounded up; otherwise the standard
/// annuity payment computed in fixed point, rounding down at each division.
pub open spec fn spec_monthly_payment(principal: int, annual_bps: int, term: int) -> int
    recommends
        term >= 1,
{
    if annual_bps == 0 {
        principal / term + if principal % term == 0 {
            0int
        } else {
            1int
        }
    } else {
        let r = monthly_rate_fp(annual_bps);
        let f = fp_pow(FP_SCALE + r, term as nat);
        let num = principal * r / (FP_SCALE as int);
        let ratio = f * (FP_SCALE as int) / (f - (FP_SCALE as int));
        num * ratio / (FP_SCALE as int)
    }
}

/// A fixed-point power of a factor of at least one is at least the factor
/// itself, and never shrinks as the exponent grows.
proof fn lemma_fp_pow_grows(x: int, k1: nat, k2: nat)
    requires
        x >= FP_SCALE,
        k1 <= k2,
    ensures
        fp_pow(x, k1) <= fp_pow(x, k2),
        fp_pow(x, k2) >= FP_SCALE,
        k2 >= 1 ==> fp_pow(x, k2) >= x,
    decreases k2,
{
    let s = FP_SCALE as int;
    if k2 == 0 {
    } else {
        let prev = fp_pow(x, (k2 - 1) as nat);
        lemma_fp_pow_grows(x, if k1 <= k2 - 1 { k1 } else { (k2 - 1) as nat }, (k2 - 1) as nat);
        assert(prev >= s);
        assert(prev * x >= prev * s) by {
            lemma_mul_inequality(s, x, prev);
            assert(prev * s == s * prev) by (nonlinear_arith);
            assert(prev * x == x * prev) by (nonlinear_arith);
        }
        assert(prev * s / s == prev) by (nonlinear_arith)
            requires s > 0;
        lemma_div_is_ordered(prev * s, prev * x, s);
        assert(fp_pow(x, k2) >= prev);
        if k2 == 1 {
            assert(s * x / s == x) by (nonlinear_arith)
                requires s > 0;
        }
    }
}

/// A fixed-point power grows with its base.
proof fn lemma_fp_pow_mono_base(x: int, y: int, k: nat)
    requires
        0 <= x <= y,
    ensures
        fp_pow(x, k) <= fp_pow(y, k),
        fp_pow(x, k) >= 0,
    decreases k,
{
    let s = FP_SCALE as int;
    if k > 0 {
        lemma_fp_pow_mono_base(x, y, (k - 1) as nat);
        let fx = fp_pow(x, (k - 1) as nat);
        let fy = fp_pow(y, (k - 1) as nat);
        lemma_mul_upper_bound(fx, fy, x, y);
        lemma_div_is_ordered(fx * x, fy * y, s);
        assert(fx * x >= 0) by (nonlinear_arith)
            requires fx >= 0 && x >= 0;
        lemma_div_pos_is_pos(fx * x, s);
    }
}

/// Over one hundred twenty months, the largest admissible monthly factor
/// stays below twelve in fixed point. The proof steps the recursion one
/// month at a time, naming each intermediate power so the solver only ever
/// checks one concrete multiplication and division per step.
proof fn lemma_fp_pow_cap()
    ensures
        fp_pow(1_020_833_333, 120) < 12_000_000_000,
{
    assert(fp_pow(1_020_833_333, 0) == 1000000000);
    assert(fp_pow(1_020_833_333, 1) == 1020833333);
    assert(fp_pow(1_020_833_333, 2) == 1042100693);
    assert(fp_pow(1_020_833_333, 3) == 1063811123);
    assert(fp_pow(1_020_833_333, 4) == 1085973854);
    assert(fp_pow(1_020_833_333, 5) == 1108598308);
    assert(fp_pow(1_020_833_333, 6) == 1131694105);
    assert(fp_pow(1_020_833_333, 7) == 1155271065);
    assert(fp_pow(1_020_833_333, 8) == 1179339211);
    assert(fp_pow(1_020_833_333, 9) == 1203908777);
    assert(fp_pow(1_020_833_333, 10) == 1228990209);
    assert(fp_pow(1_020_833_333, 11) == 1254594171);
    assert(fp_pow(1_020_833_333, 12) == 1280731549);
    assert(fp_pow(1_020_833_333, 13) == 1307413455);
    assert(fp_pow(1_020_833_333, 14) == 1334651234);
    assert(fp_pow(1_020_833_333, 15) == 1362456467);
    assert(fp_pow(1_020_833_333, 16) == 1390840976);
    assert(fp_pow(1_020_833_333, 17) == 1419816829);
    assert(fp_pow(1_020_833_333, 18) == 1449396345);
    assert(fp_pow(1_020_833_333, 19) == 1479592101);
    assert(fp_pow(1_020_833_333, 20) == 1510416935);
    assert(fp_pow(1_020_833_333, 21) == 1541883953);
    assert(fp_pow(1_020_833_333, 22) == 1574006534);
    assert(fp_pow(1_020_833_333, 23) == 1606798336);
    assert(fp_pow(1_020_833_333, 24) == 1640273300);
    assert(fp_pow(1_020_833_333, 25) == 1674445659);
    assert(fp_pow(1_020_833_333, 26) == 1709329943);
    assert(fp_pow(1_020_833_333, 27) == 1744940982);
    assert(fp_pow(1_020_833_333, 28) == 1781293918);
    assert(fp_pow(1_020_833_333, 29) == 1818404207);
    assert(fp_pow(1_020_833_333, 30) == 1856287627);
    assert(fp_pow(1_020_833_333, 31) == 1894960285);
    assert(fp_pow(1_020_833_333, 32) == 1934438623);
    assert(fp_pow(1_020_833_333, 33) == 1974739427);
    assert(fp_pow(1_020_833_333, 34) == 2015879831);
    assert(fp_pow(1_020_833_333, 35) == 2057877326);
    assert(fp_pow(1_020_833_333, 36) == 2100749769);
    assert(fp_pow(1_020_833_333, 37) == 2144515388);
    assert(fp_pow(1_020_833_333, 38) == 2189192791);
    assert(fp_pow(1_020_833_333, 39) == 2234800973);
    assert(fp_pow(1_020_833_333, 40) == 2281359325);
    assert(fp_pow(1_020_833_333, 41) == 2328887643);
    assert(fp_pow(1_020_833_333, 42) == 2377406134);
    assert(fp_pow(1_020_833_333, 43) == 2426935427);
    assert(fp_pow(1_020_833_333, 44) == 2477496580);
    assert(fp_pow(1_020_833_333, 45) == 2529111091);
    assert(fp_pow(1_020_833_333, 46) == 2581800904);
    assert(fp_pow(1_020_833_333, 47) == 2635588421);
    assert(fp_pow(1_020_833_333, 48) == 2690496512);
    assert(fp_pow(1_020_833_333, 49) == 2746548521);
    assert(fp_pow(1_020_833_333, 50) == 2803768280);
    assert(fp_pow(1_020_833_333, 51) == 2862180118);
    assert(fp_pow(1_020_833_333, 52) == 2921808869);
    assert(fp_pow(1_020_833_333, 53) == 2982679886);
    assert(fp_pow(1_020_833_333, 54) == 3044819049);
    assert(fp_pow(1_020_833_333, 55) == 3108252778);
    assert(fp_pow(1_020_833_333, 56) == 3173008043);
    assert(fp_pow(1_020_833_333, 57) == 3239112376);
    assert(fp_pow(1_020_833_333, 58) == 3306593882);
    assert(fp_pow(1_020_833_333, 59) == 3375481253);
    assert(fp_pow(1_020_833_333, 60) == 3445803777);
    assert(fp_pow(1_020_833_333, 61) == 3517591354);
    assert(fp_pow(1_020_833_333, 62) == 3590874506);
    assert(fp_pow(1_020_833_333, 63) == 3665684390);
    assert(fp_pow(1_020_833_333, 64) == 3742052813);
    assert(fp_pow(1_020_833_333, 65) == 3820012245);
    assert(fp_pow(1_020_833_333, 66) == 3899595832);
    assert(fp_pow(1_020_833_333, 67) == 3980837410);
    assert(fp_pow(1_020_833_333, 68) == 4063771521);
    assert(fp_pow(1_020_833_333, 69) == 4148433426);
    assert(fp_pow(1_020_833_333, 70) == 4234859120);
    assert(fp_pow(1_020_833_333, 71) == 4323085350);
    assert(fp_pow(1_020_833_333, 72) == 4413149626);
    assert(fp_pow(1_020_833_333, 73) == 4505090241);
    assert(fp_pow(1_020_833_333, 74) == 4598946286);
    assert(fp_pow(1_020_833_333, 75) == 4694757665);
    assert(fp_pow(1_020_833_333, 76) == 4792565114);
    assert(fp_pow(1_020_833_333, 77) == 4892410218);
    assert(fp_pow(1_020_833_333, 78) == 4994335429);
    assert(fp_pow(1_020_833_333, 79) == 5098384082);
    assert(fp_pow(1_020_833_333, 80) == 5204600415);
    assert(fp_pow(1_020_833_333, 81) == 5313029588);
    assert(fp_pow(1_020_833_333, 82) == 5423717702);
    assert(fp_pow(1_020_833_333, 83) == 5536711818);
    assert(fp_pow(1_020_833_333, 84) == 5652059979);
    assert(fp_pow(1_020_833_333, 85) == 5769811226);
    assert(fp_pow(1_020_833_333, 86) == 5890015624);
    assert(fp_pow(1_020_833_333, 87) == 6012724280);
    assert(fp_pow(1_020_833_333, 88) == 6137989367);
    assert(fp_pow(1_020_833_333, 89) == 6265864143);
    assert(fp_pow(1_020_833_333, 90) == 6396402977);
    assert(fp_pow(1_020_833_333, 91) == 6529661370);
    assert(fp_pow(1_020_833_333, 92) == 6665695979);
    assert(fp_pow(1_020_833_333, 93) == 6804564643);
    assert(fp_pow(1_020_833_333, 94) == 6946326404);
    assert(fp_pow(1_020_833_333, 95) == 7091041535);
    assert(fp_pow(1_020_833_333, 96) == 7238771564);
    assert(fp_pow(1_020_833_333, 97) == 7389579302);
    assert(fp_pow(1_020_833_333, 98) == 7543528868);
    assert(fp_pow(1_020_833_333, 99) == 7700685716);
    assert(fp_pow(1_020_833_333, 100) == 7861116665);
    assert(fp_pow(1_020_833_333, 101) == 8024889926);
    assert(fp_pow(1_020_833_333, 102) == 8192075130);
    assert(fp_pow(1_020_833_333, 103) == 8362743359);
    assert(fp_pow(1_020_833_333, 104) == 8536967176);
    assert(fp_pow(1_020_833_333, 105) == 8714820655);
    assert(fp_pow(1_020_833_333, 106) == 8896379415);
    assert(fp_pow(1_020_833_333, 107) == 9081720649);
    assert(fp_pow(1_020_833_333, 108) == 9270923159);
    assert(fp_pow(1_020_833_333, 109) == 9464067388);
    assert(fp_pow(1_020_833_333, 110) == 9661235455);
    assert(fp_pow(1_020_833_333, 111) == 9862511190);
    assert(fp_pow(1_020_833_333, 112) == 10067980169);
    assert(fp_pow(1_020_833_333, 113) == 10277729752);
    assert(fp_pow(1_020_833_333, 114) == 10491849118);
    assert(fp_pow(1_020_833_333, 115) == 10710429304);
    assert(fp_pow(1_020_833_333, 116) == 10933563244);
    assert(fp_pow(1_020_833_333, 117) == 11161345807);
    assert(fp_pow(1_020_833_333, 118) == 11393873840);
    assert(fp_pow(1_020_833_333, 119) == 11631246207);
    assert(fp_pow(1_020_833_333, 120) == 11873563832);
}

/// Standard amortized monthly payment for a principal in cents, an annual rate
/// in basis points, and a term in months. A zero rate splits the principal
/// evenly, rounded up; the result saturates at the largest representable
/// amount.
pub fn calculate_monthly_payment(principal: Amount, annual_rate_bps: u64, term_months: u32) -> (r:
    Amount)
    requires
        1 <= term_months <= MAX_LOAN_TERM_MONTHS,
        annual_rate_bps <= MAX_INTEREST_RATE_BPS,
    ensures
        ({
            let p = spec_monthly_payment(principal as int, annual_rate_bps as int,
                term_months as int);
            if p > u64::MAX {
                r == u64::MAX
            } else {
                r == p
            }
        }),
{
    if annual_rate_bps == 0 {
        let q: u64 = principal / (term_months as u64);
        let rem: u64 = principal % (term_months as u64);
        if rem == 0 {
            return q;
        }
        proof {
            assert(term_months >= 2);
            lemma_div_is_ordered_by_denominator(principal as int, 2, term_months as int);
            lemma_div_is_ordered(principal as int, u64::MAX as int, 2);
        }
        return q + 1;
    }
    let rate: u64 = annual_rate_bps * FP_SCALE / 120_000;
    let x: u64 = FP_SCALE + rate;
    proof {
        assert(monthly_rate_fp(annual_rate_bps as int) == rate);
        assert(rate >= 8_333) by {
            lemma_div_is_ordered(1 * (FP_SCALE as int), annual_rate_bps * (FP_SCALE as int),
                120_000);
        }
        assert(rate <= 20_833_333) by {
            lemma_div_is_ordered(annual_rate_bps * (FP_SCALE as int), 2_500 * (FP_SCALE as int),
                120_000);
        }
    }
    let mut f: u128 = FP_SCALE as u128;
    let mut k: u32 = 0;
    while k < term_months
        invariant
            k <= term_months <= MAX_LOAN_TERM_MONTHS,
            FP_SCALE < x <= 1_020_833_333,
            f == fp_pow(x as int, k as nat),
            f < 12_000_000_000,
        decreases term_months - k,
    {
        proof {
            lemma_fp_pow_grows(x as int, k as nat, (k + 1) as nat);
            lemma_fp_pow_grows(x as int, (k + 1) as nat, 120);
            lemma_fp_pow_mono_base(x as int, 1_020_833_333, 120);
            lemma_fp_pow_cap();
        }
        f = f * (x as u128) / (FP_SCALE as u128);
        k += 1;
    }
    proof {
        lemma_fp_pow_grows(x as int, 1, term_months as nat);
        assert(f >= x);
        lemma_mul_upper_bound(principal as int, 0xFFFF_FFFF_FFFF_FFFFint, rate as int, 20_833_333);
    }
    let num: u128 = (principal as u128) * (rate as u128) / (FP_SCALE as u128);
    let denom: u128 = f - (FP_SCALE as u128);
    proof {
        assert(num <= 384_307_162_053_367_634) by {
            lemma_div_is_ordered((principal as int) * (rate as int),
                0xFFFF_FFFF_FFFF_FFFFint * 20_833_333, 1_000_000_000);
        }
        lemma_mul_inequality(f as int, 12_000_000_000, 1_000_000_000);
    }
    let ratio: u128 = f * (FP_SCALE as u128) / denom;
    proof {
        assert(ratio <= 1_440_057_602_304_092) by {
            lemma_div_is_ordered(f as int * 1_000_000_000, 12_000_000_000int * 1_000_000_000,
                denom as int);
            lemma_div_is_ordered_by_denominator(12_000_000_000int * 1_000_000_000, 8_333,
                denom as int);
        }
        lemma_mul_upper_bound(num as int, 384_307_162_053_367_634, ratio as int,
            1_440_057_602_304_092);
    }
    let pay: u128 = num * ratio / (FP_SCALE as u128);
    if pay > u64::MAX as u128 {
        u64::MAX
    } else {
        pay as u64
    }
}

/// What the borrower still owes after `payments_made` scheduled payments of
/// `monthly_payment`, never below zero: for a zero rate, straight-line; else
/// the balance grown by the fixed-point factor less the annuity paid so far.
pub open spec fn spec_remaining_balance(
    principal: int,
    monthly_payment: int,
    annual_bps: int,
    payments_made: int,
) -> int {
    if annual_bps == 0 {
        if principal >= monthly_payment * payments_made {
            principal - monthly_payment * payments_made
        } else {
            0
        }
    } else {
        let r = monthly_rate_fp(annual_bps);
        let f = fp_pow(FP_SCALE + r, payments_made as nat);
        let grown = principal * f / (FP_SCALE as int);
        let paid = monthly_payment * ((f - (FP_SCALE as int)) / r);
        if grown >= paid {
            grown - paid
        } else {
            0
        }
    }
}

/// Remaining balance after a number of scheduled payments, floored at zero
/// and saturating at the largest representable amount.
pub fn calculate_remaining_balance(
    original_principal: Amount,
    monthly_payment: Amount,
    annual_rate_bps: u64,
    payments_made: u32,
) -> (r: Amount)
    requires
        payments_made <= MAX_LOAN_TERM_MONTHS,
        annual_rate_bps <= MAX_INTEREST_RATE_BPS,
    ensures
        ({
            let b = spec_remaining_balance(original_principal as int, monthly_payment as int,
                annual_rate_bps as int, payments_made as int);
            if b > u64::MAX {
                r == u64::MAX
            } else {
                r == b
            }
        }),
{
    if annual_rate_bps == 0 {
        proof {
            lemma_mul_upper_bound(monthly_payment as int, u64::MAX as int, payments_made as int,
                u32::MAX as int);
        }
        let owed: u128 = (monthly_payment as u128) * (payments_made as u128);
        let p: u128 = original_principal as u128;
        if p >= owed {
            return (p - owed) as u64;
        }
        return 0;
    }
    let rate: u64 = annual_rate_bps * FP_SCALE / 120_000;
    let x: u64 = FP_SCALE + rate;
    proof {
        assert(monthly_rate_fp(annual_rate_bps as int) == rate);
        assert(rate >= 8_333) by {
            lemma_div_is_ordered(1 * (FP_SCALE as int), annual_rate_bps * (FP_SCALE as int),
                120_000);
        }
        assert(rate <= 20_833_333) by {
            lemma_div_is_ordered(annual_rate_bps * (FP_SCALE as int), 2_500 * (FP_SCALE as int),
                120_000);
        }
    }
    let mut f: u128 = FP_SCALE as u128;
    let mut k: u32 = 0;
    while k < payments_made
        invariant
            k <= payments_made <= MAX_LOAN_TERM_MONTHS,
            FP_SCALE < x <= 1_020_833_333,
            f == fp_pow(x as int, k as nat),
            f < 12_000_000_000,
        decreases payments_made - k,
    {
        proof {
            lemma_fp_pow_grows(x as int, k as nat, (k + 1) as nat);
            lemma_fp_pow_grows(x as int, (k + 1) as nat, 120);
            lemma_fp_pow_mono_base(x as int, 1_020_833_333, 120);
            lemma_fp_pow_cap();
        }
        f = f * (x as u128) / (FP_SCALE as u128);
        k += 1;
    }
    proof {
        lemma_fp_pow_grows(x as int, 0, payments_made as nat);
    }
    proof {
        lemma_mul_upper_bound(original_principal as int, 0xFFFF_FFFF_FFFF_FFFFint, f as int,
            12_000_000_000);
    }
    let grown: u128 = (original_principal as u128) * f / (FP_SCALE as u128);
    let annuity: u128 = (f - (FP_SCALE as u128)) / (rate as u128);
    proof {
        assert(annuity <= 1_440_057) by {
            lemma_div_is_ordered(f as int - FP_SCALE as int, 12_000_000_000, rate as int);
            lemma_div_is_ordered_by_denominator(12_000_000_000, 8_333, rate as int);
        }
        lemma_mul_upper_bound(monthly_payment as int, 0xFFFF_FFFF_FFFF_FFFFint, annuity as int,
            1_440_057);
    }
    let paid: u128 = (monthly_payment as u128) * annuity;
    if grown >= paid {
        let b = grown - paid;
        if b > u64::MAX as u128 {
            u64::MAX
        } else {
            b as u64
        }
    } else {
        0
    }
}

/// The balance left after `k` scheduled payments of `pay` at a zero rate,
/// each split by the payment breakdown.
pub open spec fn zero_rate_balance_after(principal: int, pay: int, k: nat) -> int
    decreases k,
{
    if k == 0 {
        principal
    } else {
        crate::automation::spec_payment_breakdown(
            zero_rate_balance_after(principal, pay, (k - 1) as nat),
            0,
            pay,
        ).remaining_balance as int
    }
}

/// At a zero rate the balance falls by exactly the payment each period,
/// flooring at zero.
proof fn lemma_zero_rate_balance_closed_form(principal: int, pay: int, k: nat)
    requires
        0 <= principal <= u64::MAX,
        0 <= pay <= u64::MAX,
    ensures
        zero_rate_balance_after(principal, pay, k) == (if principal >= (k as int) * pay {
            principal - (k as int) * pay
        } else {
            0
        }),
        0 <= zero_rate_balance_after(principal, pay, k) <= principal,
    decreases k,
{
    vstd::arithmetic::mul::lemma_mul_nonnegative(k as int, pay);
    if k == 0 {
        assert((k as int) * pay == 0) by (nonlinear_arith)
            requires
                k == 0,
        ;
    }
    if k > 0 {
        lemma_zero_rate_balance_closed_form(principal, pay, (k - 1) as nat);
        assert((k as int) * pay == ((k - 1) as int) * pay + pay) by (nonlinear_arith);
        vstd::arithmetic::mul::lemma_mul_nonnegative((k - 1) as int, pay);
        let b = zero_rate_balance_after(principal, pay, (k - 1) as nat);
        let bd = crate::automation::spec_payment_breakdown(b, 0, pay);
        assert(b * 0 == 0);
        assert(bd.remaining_balance as int == (if pay <= b {
            b - pay
        } else {
            0int
        }));
        assert(zero_rate_balance_after(principal, pay, k) == bd.remaining_balance as int);
        if principal >= (k as int) * pay {
            assert(principal >= ((k - 1) as int) * pay);
            assert(b == principal - ((k - 1) as int) * pay);
            assert(pay <= b);
        } else {
            if principal >= ((k - 1) as int) * pay {
                assert(b == principal - ((k - 1) as int) * pay);
                assert(pay > b);
            } else {
                assert(b == 0);
                if pay == 0 {
                    assert((k as int) * pay == 0) by (nonlinear_arith)
                        requires
                            pay == 0,
                    ;
                    assert(false);
                }
                assert(pay > b);
            }
        }
    }
}

/// Amortization correctness for a zero rate: the scheduled monthly payment,
/// applied through the payment breakdown once per scheduled month, drives
/// the balance to exactly zero by the final payment.
pub proof fn lemma_zero_rate_amortization(principal: u64, term_months: u32)
    requires
        1 <= term_months,
    ensures
        zero_rate_balance_after(
            principal as int,
            spec_monthly_payment(principal as int, 0, term_months as int),
            term_months as nat,
        ) == 0,
{
    let p = principal as int;
    let n = term_months as int;
    let pay = spec_monthly_payment(p, 0, n);
    vstd::arithmetic::div_mod::lemma_fundamental_div_mod(p, n);
    vstd::arithmetic::div_mod::lemma_mod_bound(p, n);
    vstd::arithmetic::div_mod::lemma_div_pos_is_pos(p, n);
    assert(pay <= u64::MAX) by {
        if p == 0 {
            assert(p / n == 0) by (nonlinear_arith)
                requires
                    p == 0 && n >= 1,
            ;
        } else if n == 1 {
            assert(p % 1 == 0 && p / 1 == p);
        } else {
            vstd::arithmetic::div_mod::lemma_div_is_ordered_by_denominator(p, 2, n);
            vstd::arithmetic::div_mod::lemma_div_is_strictly_smaller(p, 2);
        }
    }
    assert(n * pay >= p) by (nonlinear_arith)
        requires
            n >= 1,
            pay == p / n + (if p % n == 0 {
                0int
            } else {
                1int
            }),
            p == n * (p / n) + p % n,
            0 <= p % n < n,
    ;
    lemma_zero_rate_balance_closed_form(p, pay, term_months as nat);
}

} // verus!
