use vstd::prelude::*;

use crate::account::AccountId;

verus! {

/// Where a zero-knowledge attestation stands.
#[derive(Debug, Clone, Copy, PartialEq, Eq, Structural)]
pub enum ZkProofStatus {
    NotSubmitted,
    Pending,
    Verified,
    Rejected,
    Expired,
}

/// What a zero-knowledge attestation claims.
#[derive(Debug, Clone, Copy, PartialEq, Eq, Structural)]
pub enum ZkProofType {
    IdentityVerification,
    ComplianceCheck,
    PropertyOwnership,
    FinancialStanding,
    AgeVerification,
    AccreditedInvestor,
    AddressOwnership,
    IncomeVerification,
    Creditworthiness,
}

/// One privacy-preserving audit entry: which account did what with which
/// attestation kind, without the attestation's contents. The action code is
/// 0 for submit, 1 for verify, 2 for reject, 3 for expire.
#[derive(Debug, Clone, Copy, PartialEq, Eq, Structural)]
pub struct AuditLog {
    pub account: AccountId,
    pub proof_type: ZkProofType,
    pub status: ZkProofStatus,
    pub timestamp: u64,
    pub action: u8,
}

/// Aggregated attestation statistics.
#[derive(Debug, Clone, Copy, PartialEq, Eq, Structural)]
pub struct VerificationStats {
    pub total_verifications: u64,
    pub successful_verifications: u64,
    pub failed_verifications: u64,
    pub last_updated: u64,
}

/// The privacy dashboard of one account.
#[derive(Debug, Clone, Copy, PartialEq, Eq, Structural)]
pub struct PrivacyDashboard {
    pub account: AccountId,
    pub active_proofs: u32,
    pub pending_proofs: u32,
    pub expired_proofs: u32,
    pub total_proofs: u32,
    /// 1 to 5, 5 being the highest privacy.
    pub privacy_level: u8,
    pub last_compliance_check: u64,
    pub next_verification_due: u64,
    pub audit_log_count: u32,
}

/// The compliance standing of one account, for dashboards.
#[derive(Debug, Clone, Copy, PartialEq, Eq, Structural)]
pub struct ComplianceStatusSummary {
    pub account: AccountId,
    pub identity_verified: bool,
    pub financial_verified: bool,
    pub accredited_investor: bool,
    pub overall_status: ZkProofStatus,
    pub last_verification: u64,
    pub next_verification_due: u64,
}

/// Notice of a submitted attestation.
#[derive(Debug, Clone, Copy, PartialEq, Eq, Structural)]
pub struct ZkProofSubmitted {
    pub account: AccountId,
    pub proof_id: u64,
    pub proof_type: ZkProofType,
    pub timestamp: u64,
}

/// Notice of a verified attestation.
#[derive(Debug, Clone, Copy, PartialEq, Eq, Structural)]
pub struct ZkProofVerified {
    pub account: AccountId,
    pub proof_id: u64,
    pub timestamp: u64,
}

/// Notice of a rejected attestation.
#[derive(Debug, Clone, Copy, PartialEq, Eq, Structural)]
pub struct ZkProofRejected {
    pub account: AccountId,
    pub proof_id: u64,
    pub timestamp: u64,
}

/// Notice of changed privacy preferences.
#[derive(Debug, Clone, Copy, PartialEq, Eq, Structural)]
pub struct PrivacyPreferencesUpdated {
    pub account: AccountId,
    pub privacy_level: u8,
    pub timestamp: u64,
}

/// Notice of an account's changed compliance standing.
#[derive(Debug, Clone, Copy, PartialEq, Eq, Structural)]
pub struct ZkComplianceUpdated {
    pub account: AccountId,
    pub status: ZkProofStatus,
    pub timestamp: u64,
}

} // verus!
