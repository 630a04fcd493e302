use vstd::prelude::*;

use crate::account::AccountId;

verus! {

/// Errors of the insurance operations.
#[derive(Debug, Clone, Copy, PartialEq, Eq, Structural)]
pub enum InsuranceError {
    Unauthorized,
    PolicyNotFound,
    ClaimNotFound,
    PoolNotFound,
    PolicyAlreadyActive,
    PolicyExpired,
    PolicyInactive,
    InsufficientPremium,
    InsufficientPoolFunds,
    ClaimAlreadyProcessed,
    ClaimExceedsCoverage,
    InvalidParameters,
    OracleVerificationFailed,
    ReinsuranceCapacityExceeded,
    TokenNotFound,
    TransferFailed,
    CooldownPeriodActive,
    PropertyNotInsurable,
    DuplicateClaim,
}

/// Where a policy stands in its lifecycle.
#[derive(Debug, Clone, Copy, PartialEq, Eq, Structural)]
pub enum PolicyStatus {
    Active,
    Expired,
    Cancelled,
    Claimed,
    Suspended,
}

/// What peril a policy covers.
#[derive(Debug, Clone, Copy, PartialEq, Eq, Structural)]
pub enum CoverageType {
    Fire,
    Flood,
    Earthquake,
    Theft,
    LiabilityDamage,
    NaturalDisaster,
    Comprehensive,
}

/// Where a claim stands between submission and payout.
#[derive(Debug, Clone, Copy, PartialEq, Eq, Structural)]
pub enum ClaimStatus {
    Pending,
    UnderReview,
    OracleVerifying,
    Approved,
    Rejected,
    Paid,
    Disputed,
}

/// The riskiness bracket of an insured property.
#[derive(Debug, Clone, Copy, PartialEq, Eq, Structural)]
pub enum RiskLevel {
    VeryLow,
    Low,
    Medium,
    High,
    VeryHigh,
}

/// The risk scores of a property, each on a 0 to 100 scale.
#[derive(Debug, Clone, Copy, PartialEq, Eq, Structural)]
pub struct RiskAssessment {
    pub property_id: u64,
    pub location_risk_score: u32,
    pub construction_risk_score: u32,
    pub age_risk_score: u32,
    /// Lower means more past claims.
    pub claims_history_score: u32,
    pub overall_risk_score: u32,
    pub risk_level: RiskLevel,
    pub assessed_at: u64,
    pub valid_until: u64,
}

/// How a premium was computed.
#[derive(Debug, Clone, Copy, PartialEq, Eq, Structural)]
pub struct PremiumCalculation {
    /// Basis points.
    pub base_rate: u32,
    /// 100 equals a multiplier of one.
    pub risk_multiplier: u32,
    pub coverage_multiplier: u32,
    pub annual_premium: u128,
    pub monthly_premium: u128,
    pub deductible: u128,
}

/// A tradeable token standing for one policy.
#[derive(Debug, Clone, Copy, PartialEq, Eq, Structural)]
pub struct InsuranceToken {
    pub token_id: u64,
    pub policy_id: u64,
    pub owner: AccountId,
    pub face_value: u128,
    pub is_tradeable: bool,
    pub created_at: u64,
    pub listed_price: Option<u128>,
}

/// Loss expectations behind premium pricing for one coverage kind.
#[derive(Debug, Clone, Copy, PartialEq, Eq, Structural)]
pub struct ActuarialModel {
    pub model_id: u64,
    pub coverage_type: CoverageType,
    /// Expected losses per thousand policies, in basis points.
    pub loss_frequency: u32,
    pub average_loss_severity: u128,
    /// Expected loss ratio, in basis points.
    pub expected_loss_ratio: u32,
    /// 0 to 100.
    pub confidence_level: u32,
    pub last_updated: u64,
    pub data_points: u32,
}

/// One account's stake in a risk pool.
#[derive(Debug, Clone, Copy, PartialEq, Eq, Structural)]
pub struct PoolLiquidityProvider {
    pub provider: AccountId,
    pub pool_id: u64,
    pub deposited_amount: u128,
    /// Basis points of the pool.
    pub share_percentage: u32,
    pub deposited_at: u64,
    pub last_reward_claim: u64,
    pub accumulated_rewards: u128,
}

/// Notice of a created policy.
#[derive(Debug, Clone, Copy, PartialEq, Eq, Structural)]
pub struct PolicyCreated {
    pub policy_id: u64,
    pub policyholder: AccountId,
    pub property_id: u64,
    pub coverage_type: CoverageType,
    pub coverage_amount: u128,
    pub premium_amount: u128,
    pub start_time: u64,
    pub end_time: u64,
}

/// Notice of a cancelled policy.
#[derive(Debug, Clone, Copy, PartialEq, Eq, Structural)]
pub struct PolicyCancelled {
    pub policy_id: u64,
    pub policyholder: AccountId,
    pub cancelled_at: u64,
}

/// Notice of a submitted claim.
#[derive(Debug, Clone, Copy, PartialEq, Eq, Structural)]
pub struct ClaimSubmitted {
    pub claim_id: u64,
    pub policy_id: u64,
    pub claimant: AccountId,
    pub claim_amount: u128,
    pub submitted_at: u64,
}

/// Notice of an approved claim.
#[derive(Debug, Clone, Copy, PartialEq, Eq, Structural)]
pub struct ClaimApproved {
    pub claim_id: u64,
    pub policy_id: u64,
    pub payout_amount: u128,
    pub approved_by: AccountId,
    pub timestamp: u64,
}

/// Notice of an executed payout.
#[derive(Debug, Clone, Copy, PartialEq, Eq, Structural)]
pub struct PayoutExecuted {
    pub claim_id: u64,
    pub recipient: AccountId,
    pub amount: u128,
    pub timestamp: u64,
}

/// Notice of capital added to a risk pool.
#[derive(Debug, Clone, Copy, PartialEq, Eq, Structural)]
pub struct PoolCapitalized {
    pub pool_id: u64,
    pub provider: AccountId,
    pub amount: u128,
    pub timestamp: u64,
}

/// Notice of reinsurance covering part of a claim.
#[derive(Debug, Clone, Copy, PartialEq, Eq, Structural)]
pub struct ReinsuranceActivated {
    pub claim_id: u64,
    pub agreement_id: u64,
    pub recovery_amount: u128,
    pub timestamp: u64,
}

/// Notice of a minted insurance token.
#[derive(Debug, Clone, Copy, PartialEq, Eq, Structural)]
pub struct InsuranceTokenMinted {
    pub token_id: u64,
    pub policy_id: u64,
    pub owner: AccountId,
    pub face_value: u128,
}

/// Notice of a traded insurance token.
#[derive(Debug, Clone, Copy, PartialEq, Eq, Structural)]
pub struct InsuranceTokenTransferred {
    pub token_id: u64,
    pub from: AccountId,
    pub to: AccountId,
    pub price: u128,
}

/// Notice of an updated risk assessment.
#[derive(Debug, Clone, Copy, PartialEq, Eq, Structural)]
pub struct RiskAssessmentUpdated {
    pub property_id: u64,
    pub overall_score: u32,
    pub risk_level: RiskLevel,
    pub timestamp: u64,
}

} // verus!
