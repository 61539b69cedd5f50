use vstd::prelude::*;

use crate::constants::VOTING_POWER_COMMUNITY;
use crate::constants::VOTING_POWER_DONOR;
use crate::constants::VOTING_POWER_STUDENT;
use crate::constants::VOTING_POWER_TEAM;
use crate::constants::VOTING_POWER_UNIVERSITY;

verus! {

/// Where governance tokens were earned.
#[derive(Clone, Copy, Debug, PartialEq, Eq, Structural)]
pub enum TokenSource {
    InitialDistribution,
    LoanOrigination,
    LoanRepayment,
    ScholarshipDonation,
    CommunityParticipation,
    Delegation,
    Staking,
}

/// The treasury a governance allocation proposal draws from.
#[derive(Clone, Copy, Debug, PartialEq, Eq, Structural)]
pub enum TreasuryType {
    Loan,
    Scholarship,
    Protocol,
}

/// Where a proposal stands in its life.
#[derive(Clone, Copy, Debug, PartialEq, Eq, Structural)]
pub enum ProposalStatus {
    Active,
    Passed,
    Rejected,
    Executed,
    Expired,
    Cancelled,
}

/// A voter's choice.
#[derive(Clone, Copy, Debug, PartialEq, Eq, Structural)]
pub enum VoteType {
    For,
    Against,
    Abstain,
}

/// Aggregate governance figures for reporting.
#[derive(Clone, Copy, Debug, PartialEq, Eq, Structural)]
pub struct GovernanceStats {
    pub total_proposals: u32,
    pub active_proposals: u32,
    pub passed_proposals: u32,
    pub rejected_proposals: u32,
    pub total_votes_cast: u64,
    pub total_voting_power: u64,
    pub total_token_holders: u32,
    pub total_tokens_issued: u64,
    pub total_tokens_locked: u64,
}

/// The kinds of platform stakeholders.
#[derive(Clone, Copy, Debug, PartialEq, Eq, Structural)]
pub enum StakeholderType {
    Student,
    Donor,
    University,
    CommunityMember,
    TeamMember,
    Validator,
}

impl StakeholderType {
    /// The voting power a stakeholder starts with, by kind; validators carry
    /// twice the team weight.
    pub fn base_voting_power(&self) -> (r: u64)
        ensures
            self is Student ==> r == VOTING_POWER_STUDENT,
            self is Donor ==> r == VOTING_POWER_DONOR,
            self is University ==> r == VOTING_POWER_UNIVERSITY,
            self is CommunityMember ==> r == VOTING_POWER_COMMUNITY,
            self is TeamMember ==> r == VOTING_POWER_TEAM,
            self is Validator ==> r == VOTING_POWER_TEAM * 2,
    {
        match self {
            StakeholderType::Student => VOTING_POWER_STUDENT,
            StakeholderType::Donor => VOTING_POWER_DONOR,
            StakeholderType::University => VOTING_POWER_UNIVERSITY,
            StakeholderType::CommunityMember => VOTING_POWER_COMMUNITY,
            StakeholderType::TeamMember => VOTING_POWER_TEAM,
            StakeholderType::Validator => VOTING_POWER_TEAM * 2,
        }
    }
}

/// Vote-counting rules for governance proposals.
pub struct VotingEngine;

impl VotingEngine {
    /// Quadratic voting: the voting power of a token balance is the integer
    /// square root of the balance.
    pub fn calculate_quadratic_voting_power(token_balance: u64) -> (r: u64)
        ensures
            (r as int) * (r as int) <= token_balance,
            (r as int + 1) * (r as int + 1) > token_balance,
    {
        let n = token_balance;
        let mut lo: u64 = 0;
        let mut hi: u64 = 4_294_967_296;
        proof {
            assert((4_294_967_296int + 1) * (4_294_967_296int + 1) > u64::MAX) by (nonlinear_arith);
        }
        while lo < hi
            invariant
                lo <= hi <= 4_294_967_296,
                (lo as int) * (lo as int) <= n,
                (hi as int + 1) * (hi as int + 1) > n,
            decreases hi - lo,
        {
            let mid: u64 = lo + (hi - lo + 1) / 2;
            proof {
                vstd::arithmetic::mul::lemma_mul_upper_bound(mid as int, 4_294_967_296int,
                    mid as int, 4_294_967_296int);
            }
            let sq: u128 = (mid as u128) * (mid as u128);
            if sq <= n as u128 {
                lo = mid;
            } else {
                proof {
                    assert((mid as int - 1 + 1) * (mid as int - 1 + 1) > n);
                }
                hi = mid - 1;
            }
        }
        lo
    }
}

} // verus!
