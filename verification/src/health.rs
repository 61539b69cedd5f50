use vstd::prelude::*;

use crate::Amount;
use crate::constants::BPS_SCALE;
use crate::errors::StudiFiError;
use crate::errors::StudiFiResult;
use crate::loans::TreasuryConfig;
use crate::loans::TreasuryStats;
use crate::storage::FinanceStorage;
use crate::storage::loan_views;
use crate::storage::sum_outstanding;
use crate::storage::treasury_slot;
use crate::treasury::SeparateTreasuryConfig;
use crate::treasury::TreasuryType;

verus! {

/// Health bucket a treasury falls into by its score.
#[derive(Clone, Copy, Debug, PartialEq, Eq, Structural)]
pub enum TreasuryHealthStatus {
    Excellent,
    Good,
    Fair,
    Poor,
    Critical,
}

/// A treasury's health report: its funds, the derived ratios in basis
/// points, the score, its bucket, and advisory texts.
#[derive(Clone, Debug)]
pub struct TreasuryHealth {
    pub total_funds: Amount,
    pub available_funds: Amount,
    pub reserved_funds: Amount,
    pub reserve_ratio_bps: u64,
    pub loan_to_fund_ratio_bps: u64,
    pub utilization_rate_bps: u64,
    pub default_rate_bps: u64,
    pub health_score_bps: u64,
    pub health_status: TreasuryHealthStatus,
    pub recommendations: Vec<String>,
}

/// The health reports of all three treasuries and the figures across them.
#[derive(Clone, Debug)]
pub struct MultiTreasuryHealth {
    pub loan_treasury: TreasuryHealth,
    pub scholarship_treasury: TreasuryHealth,
    pub protocol_treasury: TreasuryHealth,
    pub total_platform_funds: Amount,
    pub overall_health_score_bps: u64,
    pub cross_treasury_recommendations: Vec<String>,
}

/// `part` as basis points of `total`, zero when `total` is zero, capped at
/// the largest representable value.
pub open spec fn ratio_bps(part: int, total: int) -> int {
    if total > 0 {
        let r = part * (BPS_SCALE as int) / total;
        if r > u64::MAX {
            u64::MAX as int
        } else {
            r
        }
    } else {
        0
    }
}

/// `part` as basis points of `total`.
pub fn ratio_bps_u64(part: u64, total: u64) -> (r: u64)
    ensures
        r == ratio_bps(part as int, total as int),
{
    if total == 0 {
        return 0;
    }
    proof {
        vstd::arithmetic::mul::lemma_mul_upper_bound(part as int, u64::MAX as int,
            BPS_SCALE as int, BPS_SCALE as int);
    }
    let q: u128 = (part as u128) * (BPS_SCALE as u128) / (total as u128);
    if q > u64::MAX as u128 {
        u64::MAX
    } else {
        q as u64
    }
}

/// The health score in basis points: one whole, less penalties for a thin
/// reserve, an overextended loan book, defaults, and utilization outside its
/// comfortable band; clamped between zero and one whole.
pub open spec fn spec_health_score(
    reserve_bps: int,
    loan_to_fund_bps: int,
    default_rate_bps: int,
    utilization_bps: int,
) -> int {
    let s0 = BPS_SCALE as int;
    let s1 = if reserve_bps < 1_500 {
        s0 - (1_500 - reserve_bps) * 2
    } else {
        s0
    };
    let s2 = if loan_to_fund_bps > 8_000 {
        s1 - (loan_to_fund_bps - 8_000) * 3
    } else {
        s1
    };
    let s3 = s2 - default_rate_bps * 5;
    let s4 = if utilization_bps > 9_000 {
        s3 - (utilization_bps - 9_000) * 2
    } else if utilization_bps < 3_000 {
        s3 - (3_000 - utilization_bps)
    } else {
        s3
    };
    if s4 < 0 {
        0
    } else if s4 > s0 {
        s0
    } else {
        s4
    }
}

/// The overall treasury health score from the four ratios, in basis points.
pub fn calculate_health_score(
    reserve_bps: u64,
    loan_to_fund_bps: u64,
    default_rate_bps: u64,
    utilization_bps: u64,
) -> (r: u64)
    ensures
        r == spec_health_score(
            reserve_bps as int,
            loan_to_fund_bps as int,
            default_rate_bps as int,
            utilization_bps as int,
        ),
{
    let s0: i128 = BPS_SCALE as i128;
    let s1: i128 = if reserve_bps < 1_500 {
        s0 - (1_500 - reserve_bps as i128) * 2
    } else {
        s0
    };
    let s2: i128 = if loan_to_fund_bps > 8_000 {
        s1 - (loan_to_fund_bps as i128 - 8_000) * 3
    } else {
        s1
    };
    let s3: i128 = s2 - default_rate_bps as i128 * 5;
    let s4: i128 = if utilization_bps > 9_000 {
        s3 - (utilization_bps as i128 - 9_000) * 2
    } else if utilization_bps < 3_000 {
        s3 - (3_000 - utilization_bps as i128)
    } else {
        s3
    };
    if s4 < 0 {
        0
    } else if s4 > s0 {
        BPS_SCALE
    } else {
        s4 as u64
    }
}

/// The bucket a score falls into.
pub open spec fn spec_health_status(score_bps: int) -> TreasuryHealthStatus {
    if score_bps >= 8_000 {
        TreasuryHealthStatus::Excellent
    } else if score_bps >= 6_000 {
        TreasuryHealthStatus::Good
    } else if score_bps >= 4_000 {
        TreasuryHealthStatus::Fair
    } else if score_bps >= 2_000 {
        TreasuryHealthStatus::Poor
    } else {
        TreasuryHealthStatus::Critical
    }
}

/// Bucket a health score.
pub fn determine_health_status(score_bps: u64) -> (r: TreasuryHealthStatus)
    ensures
        r == spec_health_status(score_bps as int),
{
    if score_bps >= 8_000 {
        TreasuryHealthStatus::Excellent
    } else if score_bps >= 6_000 {
        TreasuryHealthStatus::Good
    } else if score_bps >= 4_000 {
        TreasuryHealthStatus::Fair
    } else if score_bps >= 2_000 {
        TreasuryHealthStatus::Poor
    } else {
        TreasuryHealthStatus::Critical
    }
}

/// The advisory texts for the pooled treasury, in a fixed order.
pub open spec fn spec_recommendations(config: TreasuryConfig, stats: TreasuryStats) -> Seq<
    Seq<char>,
> {
    let reserve = ratio_bps(config.available_funds as int, config.total_funds as int);
    let ltf = ratio_bps(stats.total_loans_outstanding as int, config.total_funds as int);
    (if reserve < 1_500 {
        seq!["Increase treasury reserves to maintain liquidity"@]
    } else {
        Seq::empty()
    }) + (if ltf > 8_000 {
        seq!["Reduce new loan originations to manage risk"@]
    } else {
        Seq::empty()
    }) + (if stats.default_rate_bps > 500 {
        seq!["Review credit policies to reduce default rate"@]
    } else {
        Seq::empty()
    }) + (if stats.active_loan_count < 10 {
        seq!["Increase marketing to grow loan portfolio"@]
    } else {
        Seq::empty()
    }) + (if config.total_funds < 500_000_00 {
        seq!["Consider fundraising to increase treasury capacity"@]
    } else {
        Seq::empty()
    })
}

/// Advisory texts for the pooled treasury: independent threshold checks, in
/// a fixed order, read-only.
pub fn generate_recommendations(config: &TreasuryConfig, stats: &TreasuryStats) -> (r: Vec<String>)
    ensures
        r@.map_values(|s: String| s@) == spec_recommendations(*config, *stats),
{
    let mut out: Vec<String> = Vec::new();
    let reserve = ratio_bps_u64(config.available_funds, config.total_funds);
    let ltf = ratio_bps_u64(stats.total_loans_outstanding, config.total_funds);
    if reserve < 1_500 {
        out.push("Increase treasury reserves to maintain liquidity".to_owned());
    }
    if ltf > 8_000 {
        out.push("Reduce new loan originations to manage risk".to_owned());
    }
    if stats.default_rate_bps > 500 {
        out.push("Review credit policies to reduce default rate".to_owned());
    }
    if stats.active_loan_count < 10 {
        out.push("Increase marketing to grow loan portfolio".to_owned());
    }
    if config.total_funds < 500_000_00 {
        out.push("Consider fundraising to increase treasury capacity".to_owned());
    }
    proof {
        assert(out@.map_values(|s: String| s@) =~= spec_recommendations(*config, *stats));
    }
    out
}

/// The advisory texts for one purpose-scoped treasury, in a fixed order.
pub open spec fn spec_treasury_recommendations(
    config: SeparateTreasuryConfig,
    treasury_type: TreasuryType,
) -> Seq<Seq<char>> {
    let reserve = ratio_bps(config.available_funds as int, config.total_funds as int);
    let utilization = ratio_bps(config.reserved_funds as int, config.total_funds as int);
    match treasury_type {
        TreasuryType::Loan => (if reserve < 1_500 {
            seq!["Increase loan treasury reserves for liquidity"@]
        } else {
            Seq::empty()
        }) + (if utilization > 8_500 {
            seq!["Consider reducing new loan originations"@]
        } else {
            Seq::empty()
        }) + (if config.total_funds < 500_000_00 {
            seq!["Consider increasing loan treasury capacity"@]
        } else {
            Seq::empty()
        }),
        TreasuryType::Scholarship => (if utilization < 3_000 {
            seq!["Consider creating more scholarship opportunities"@]
        } else {
            Seq::empty()
        }) + (if config.total_funds < 100_000_00 {
            seq!["Seek additional scholarship funding sources"@]
        } else {
            Seq::empty()
        }),
        TreasuryType::Protocol => (if reserve < 2_000 {
            seq!["Maintain higher protocol treasury reserves"@]
        } else {
            Seq::empty()
        }) + (if config.total_funds < 50_000_00 {
            seq!["Ensure adequate protocol operational funds"@]
        } else {
            Seq::empty()
        }),
    }
}

/// Advisory texts for one purpose-scoped treasury.
pub fn generate_treasury_recommendations(
    config: &SeparateTreasuryConfig,
    treasury_type: TreasuryType,
) -> (r: Vec<String>)
    ensures
        r@.map_values(|s: String| s@) == spec_treasury_recommendations(*config, treasury_type),
{
    let mut out: Vec<String> = Vec::new();
    let reserve = ratio_bps_u64(config.available_funds, config.total_funds);
    let utilization = ratio_bps_u64(config.reserved_funds, config.total_funds);
    match treasury_type {
        TreasuryType::Loan => {
            if reserve < 1_500 {
                out.push("Increase loan treasury reserves for liquidity".to_owned());
            }
            if utilization > 8_500 {
                out.push("Consider reducing new loan originations".to_owned());
            }
            if config.total_funds < 500_000_00 {
                out.push("Consider increasing loan treasury capacity".to_owned());
            }
        },
        TreasuryType::Scholarship => {
            if utilization < 3_000 {
                out.push("Consider creating more scholarship opportunities".to_owned());
            }
            if config.total_funds < 100_000_00 {
                out.push("Seek additional scholarship funding sources".to_owned());
            }
        },
        TreasuryType::Protocol => {
            if reserve < 2_000 {
                out.push("Maintain higher protocol treasury reserves".to_owned());
            }
            if config.total_funds < 50_000_00 {
                out.push("Ensure adequate protocol operational funds".to_owned());
            }
        },
    }
    proof {
        assert(out@.map_values(|s: String| s@) =~= spec_treasury_recommendations(*config,
            treasury_type));
    }
    out
}

/// `a` saturating-subtracted by `b`.
pub open spec fn sat_sub(a: int, b: int) -> int {
    if a >= b {
        a - b
    } else {
        0
    }
}

/// The cross-treasury advisory texts, from the three totals, the loan pool's
/// score, and the scholarship pool's available funds.
pub open spec fn spec_cross_recommendations(
    loan_total: int,
    sch_total: int,
    prot_total: int,
    loan_score_bps: int,
    sch_available: int,
) -> Seq<Seq<char>> {
    let platform = loan_total + sch_total + prot_total;
    (if platform > 0 && loan_total * (BPS_SCALE as int) / platform > 8_000 {
        seq!["Consider rebalancing funds to increase scholarship treasury"@]
    } else {
        Seq::empty()
    }) + (if platform > 0 && sch_total * (BPS_SCALE as int) / platform < 1_000 {
        seq!["Scholarship treasury may be underfunded relative to platform size"@]
    } else {
        Seq::empty()
    }) + (if loan_score_bps < 5_000 && sch_available > sch_total * 50 / 100 {
        seq!["Consider temporary transfer from scholarship to loan treasury"@]
    } else {
        Seq::empty()
    })
}

/// Advisory texts that look across the three treasuries.
pub fn generate_cross_treasury_recommendations(
    loan_health: &TreasuryHealth,
    scholarship_health: &TreasuryHealth,
    protocol_health: &TreasuryHealth,
) -> (r: Vec<String>)
    ensures
        r@.map_values(|s: String| s@) == spec_cross_recommendations(
            loan_health.total_funds as int,
            scholarship_health.total_funds as int,
            protocol_health.total_funds as int,
            loan_health.health_score_bps as int,
            scholarship_health.available_funds as int,
        ),
{
    let mut out: Vec<String> = Vec::new();
    let platform: u128 = loan_health.total_funds as u128 + scholarship_health.total_funds as u128
        + protocol_health.total_funds as u128;
    if platform > 0 {
        proof {
            vstd::arithmetic::mul::lemma_mul_upper_bound(loan_health.total_funds as int,
                u64::MAX as int, BPS_SCALE as int, BPS_SCALE as int);
            vstd::arithmetic::mul::lemma_mul_upper_bound(scholarship_health.total_funds as int,
                u64::MAX as int, BPS_SCALE as int, BPS_SCALE as int);
        }
        let loan_pct: u128 = (loan_health.total_funds as u128) * (BPS_SCALE as u128) / platform;
        let sch_pct: u128 = (scholarship_health.total_funds as u128) * (BPS_SCALE as u128)
            / platform;
        if loan_pct > 8_000 {
            out.push("Consider rebalancing funds to increase scholarship treasury".to_owned());
        }
        if sch_pct < 1_000 {
            out.push(
                "Scholarship treasury may be underfunded relative to platform size".to_owned(),
            );
        }
    }
    proof {
        vstd::arithmetic::mul::lemma_mul_upper_bound(scholarship_health.total_funds as int,
            u64::MAX as int, 50, 50);
    }
    let threshold: u128 = (scholarship_health.total_funds as u128) * 50 / 100;
    if loan_health.health_score_bps < 5_000 && scholarship_health.available_funds as u128
        > threshold {
        out.push("Consider temporary transfer from scholarship to loan treasury".to_owned());
    }
    proof {
        assert(out@.map_values(|s: String| s@) =~= spec_cross_recommendations(
            loan_health.total_funds as int,
            scholarship_health.total_funds as int,
            protocol_health.total_funds as int,
            loan_health.health_score_bps as int,
            scholarship_health.available_funds as int,
        ));
    }
    out
}

/// The report `get_treasury_health` assembles over the pooled treasury.
pub open spec fn spec_pool_health_score(s: FinanceStorage) -> int {
    let config = s.treasury_config;
    let stats = crate::storage::spec_treasury_stats(s);
    spec_health_score(
        ratio_bps(config.available_funds as int, config.total_funds as int),
        ratio_bps(stats.total_loans_outstanding as int, config.total_funds as int),
        stats.default_rate_bps as int,
        ratio_bps(
            sat_sub(config.total_funds as int, config.available_funds as int),
            config.total_funds as int,
        ),
    )
}

/// The health score a purpose-scoped treasury earns: its reserve and
/// utilization ratios, and a fixed placeholder default rate.
pub open spec fn spec_separate_health_score(config: SeparateTreasuryConfig) -> int {
    let reserve = ratio_bps(config.available_funds as int, config.total_funds as int);
    let utilization = ratio_bps(config.reserved_funds as int, config.total_funds as int);
    spec_health_score(reserve, utilization, 200, utilization)
}

impl crate::treasury::TreasuryEngine {
    /// The health report of the pooled treasury: ratios, score, bucket and
    /// advisory texts, read-only.
    pub fn get_treasury_health(storage: &FinanceStorage) -> (r: TreasuryHealth)
        ensures
            r.total_funds == storage.treasury_config.total_funds,
            r.available_funds == storage.treasury_config.available_funds,
            r.reserved_funds == storage.treasury_config.reserved_funds,
            r.reserve_ratio_bps == ratio_bps(
                storage.treasury_config.available_funds as int,
                storage.treasury_config.total_funds as int,
            ),
            r.loan_to_fund_ratio_bps == ratio_bps(
                crate::storage::spec_treasury_stats(*storage).total_loans_outstanding as int,
                storage.treasury_config.total_funds as int,
            ),
            r.utilization_rate_bps == ratio_bps(
                sat_sub(
                    storage.treasury_config.total_funds as int,
                    storage.treasury_config.available_funds as int,
                ),
                storage.treasury_config.total_funds as int,
            ),
            r.default_rate_bps == crate::storage::spec_treasury_stats(*storage).default_rate_bps,
            r.health_score_bps == spec_pool_health_score(*storage),
            r.health_status == spec_health_status(spec_pool_health_score(*storage)),
            r.recommendations@.map_values(|s: String| s@) == spec_recommendations(
                storage.treasury_config,
                crate::storage::spec_treasury_stats(*storage),
            ),
    {
        let config = storage.get_treasury_config();
        let stats = storage.calculate_treasury_stats();
        let reserve_ratio_bps = ratio_bps_u64(config.available_funds, config.total_funds);
        let loan_to_fund_ratio_bps = ratio_bps_u64(stats.total_loans_outstanding,
            config.total_funds);
        let committed = if config.total_funds >= config.available_funds {
            config.total_funds - config.available_funds
        } else {
            0
        };
        let utilization_rate_bps = ratio_bps_u64(committed, config.total_funds);
        let health_score_bps = calculate_health_score(reserve_ratio_bps, loan_to_fund_ratio_bps,
            stats.default_rate_bps, utilization_rate_bps);
        let health_status = determine_health_status(health_score_bps);
        let recommendations = generate_recommendations(&config, &stats);
        TreasuryHealth {
            total_funds: config.total_funds,
            available_funds: config.available_funds,
            reserved_funds: config.reserved_funds,
            reserve_ratio_bps,
            loan_to_fund_ratio_bps,
            utilization_rate_bps,
            default_rate_bps: stats.default_rate_bps,
            health_score_bps,
            health_status,
            recommendations,
        }
    }

    /// The health report of one purpose-scoped treasury.
    pub fn get_treasury_health_for_type(storage: &FinanceStorage, treasury_type: TreasuryType)
        -> (r: StudiFiResult<TreasuryHealth>)
        ensures
            r is Ok <==> treasury_slot(*storage, treasury_type) is Some,
            r matches Err(e) ==> e is NotFound,
            r matches Ok(h) ==> ({
                let config = treasury_slot(*storage, treasury_type)->0;
                &&& h.total_funds == config.total_funds
                &&& h.available_funds == config.available_funds
                &&& h.reserved_funds == config.reserved_funds
                &&& h.reserve_ratio_bps == ratio_bps(
                    config.available_funds as int,
                    config.total_funds as int,
                )
                &&& h.utilization_rate_bps == ratio_bps(
                    config.reserved_funds as int,
                    config.total_funds as int,
                )
                &&& h.loan_to_fund_ratio_bps == h.utilization_rate_bps
                &&& h.default_rate_bps == 200
                &&& h.health_score_bps == spec_separate_health_score(config)
                &&& h.health_status == spec_health_status(spec_separate_health_score(config))
                &&& h.recommendations@.map_values(|s: String| s@)
                    == spec_treasury_recommendations(config, treasury_type)
            }),
    {
        let config = match storage.get_separate_treasury_config(&treasury_type) {
            Some(c) => c.clone(),
            None => {
                return Err(StudiFiError::NotFound("Treasury not found".to_owned()));
            },
        };
        let reserve_ratio_bps = ratio_bps_u64(config.available_funds, config.total_funds);
        let utilization_rate_bps = ratio_bps_u64(config.reserved_funds, config.total_funds);
        let health_score_bps = calculate_health_score(reserve_ratio_bps, utilization_rate_bps,
            200, utilization_rate_bps);
        let health_status = determine_health_status(health_score_bps);
        let recommendations = generate_treasury_recommendations(&config, treasury_type);
        Ok(
            TreasuryHealth {
                total_funds: config.total_funds,
                available_funds: config.available_funds,
                reserved_funds: config.reserved_funds,
                reserve_ratio_bps,
                loan_to_fund_ratio_bps: utilization_rate_bps,
                utilization_rate_bps,
                default_rate_bps: 200,
                health_score_bps,
                health_status,
                recommendations,
            },
        )
    }

    /// The health overview across all three treasuries: each report, the
    /// platform total (saturating), and a weighted overall score favouring
    /// the loan pool.
    pub fn get_multi_treasury_health(storage: &FinanceStorage) -> (r: StudiFiResult<
        MultiTreasuryHealth,
    >)
        ensures
            r is Ok <==> (storage.loan_treasury is Some && storage.scholarship_treasury is Some
                && storage.protocol_treasury is Some),
            r matches Err(e) ==> e is NotFound,
            r matches Ok(m) ==> ({
                let lt = storage.loan_treasury->0;
                let st = storage.scholarship_treasury->0;
                let pt = storage.protocol_treasury->0;
                &&& m.loan_treasury.total_funds == lt.total_funds
                &&& m.scholarship_treasury.total_funds == st.total_funds
                &&& m.protocol_treasury.total_funds == pt.total_funds
                &&& m.total_platform_funds == crate::loans::sat_add_u64(
                    crate::loans::sat_add_u64(lt.total_funds as int, st.total_funds as int),
                    pt.total_funds as int,
                )
                &&& m.overall_health_score_bps == (spec_separate_health_score(lt) * 5
                    + spec_separate_health_score(st) * 3 + spec_separate_health_score(pt) * 2)
                    / 10
                &&& m.cross_treasury_recommendations@.map_values(|s: String| s@)
                    == spec_cross_recommendations(
                    lt.total_funds as int,
                    st.total_funds as int,
                    pt.total_funds as int,
                    spec_separate_health_score(lt),
                    st.available_funds as int,
                )
            }),
    {
        let loan_health = match Self::get_treasury_health_for_type(storage, TreasuryType::Loan) {
            Ok(h) => h,
            Err(e) => {
                return Err(e);
            },
        };
        let scholarship_health = match Self::get_treasury_health_for_type(storage,
            TreasuryType::Scholarship) {
            Ok(h) => h,
            Err(e) => {
                return Err(e);
            },
        };
        let protocol_health = match Self::get_treasury_health_for_type(storage,
            TreasuryType::Protocol) {
            Ok(h) => h,
            Err(e) => {
                return Err(e);
            },
        };
        let total_platform_funds = loan_health.total_funds.saturating_add(
            scholarship_health.total_funds,
        ).saturating_add(protocol_health.total_funds);
        let overall_health_score_bps = (loan_health.health_score_bps * 5
            + scholarship_health.health_score_bps * 3 + protocol_health.health_score_bps * 2)
            / 10;
        let cross_treasury_recommendations = generate_cross_treasury_recommendations(
            &loan_health,
            &scholarship_health,
            &protocol_health,
        );
        Ok(
            MultiTreasuryHealth {
                loan_treasury: loan_health,
                scholarship_treasury: scholarship_health,
                protocol_treasury: protocol_health,
                total_platform_funds,
                overall_health_score_bps,
                cross_treasury_recommendations,
            },
        )
    }
}

} // verus!
