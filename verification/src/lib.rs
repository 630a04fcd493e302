mod account;
mod hash;
mod types;
mod bridge;
mod token;
mod protocol;
mod monitor;
mod laws;
mod shares;
mod audit;
mod batch;
mod errors;
mod fees;
mod fee_manager;
mod valuation;
mod analytics;
mod insurance;
mod zk;

pub use account::AccountId;
pub use account::SENTINEL;
pub use hash::TxHash;
pub use hash::derive_bridge_hash;
pub use hash::spec_bridge_hash;
pub use hash::lemma_bridge_hash_identifies_request;
pub use types::TokenId;
pub use types::ChainId;
pub use types::Error;
pub use types::PropertyMetadata;
pub use types::PropertyInfo;
pub use types::OwnershipTransfer;
pub use types::ComplianceInfo;
pub use types::DocumentInfo;
pub use types::BridgeOperationStatus;
pub use types::BridgingStatus;
pub use types::RecoveryAction;
pub use types::BridgeConfig;
pub use types::MultisigBridgeRequest;
pub use types::BridgedTokenInfo;
pub use types::BridgeTransaction;
pub use types::BridgeMonitoringInfo;
pub use types::BridgeStatus;
pub use types::Proposal;
pub use types::ProposalStatus;
pub use types::Ask;
pub use types::TaxRecord;
pub use types::ErrorLogEntry;
pub use bridge::PropertyToken;
pub use bridge::TokenRecord;
pub use bridge::HashEntry;
pub use bridge::BridgedEntry;
pub use bridge::LOCAL_CHAIN;
pub use bridge::spec_key;
pub use bridge::pack_key;
pub use errors::ErrorCategory;
pub use errors::ErrorSeverity;
pub use errors::ErrorInfo;
pub use errors::ErrorRate;
pub use errors::user_error;
pub use errors::system_error;
pub use errors::network_error;
pub use errors::validation_error;
pub use errors::authorization_error;
pub use errors::state_error;
pub use errors::safe_unwrap;
pub use errors::safe_expect;
pub use errors::ErrorLogger;
pub use errors::ErrorCountEntry;
pub use errors::ErrorRateEntry;
pub use errors::counts_give;
pub use errors::error_info_matches;
pub use errors::spec_inc_sat;
pub use fees::FeeOperation;
pub use fees::FeeConfig;
pub use fees::FeeHistoryEntry;
pub use fees::PremiumAuction;
pub use fees::AuctionBid;
pub use fees::RewardReason;
pub use fees::RewardRecord;
pub use fees::FeeReport;
pub use fees::FeeError;
pub use fees::PremiumAuctionCreated;
pub use fees::PremiumAuctionBid;
pub use fees::PremiumAuctionSettled;
pub use fees::RewardsDistributed;
pub use fees::FeeEstimate;
pub use fees::compute_dynamic_fee;
pub use fees::spec_dynamic_fee;
pub use fee_manager::FeeManager;
pub use fee_manager::RewardBooks;
pub use fee_manager::spec_op_code;
pub use valuation::PipelineStatus;
pub use valuation::RegularizationType;
pub use valuation::FeatureSelectionMethod;
pub use valuation::ValidationMetric;
pub use valuation::BiasTest;
pub use valuation::FairnessType;
pub use valuation::EnforcementLevel;
pub use valuation::TrainingConfig;
pub use valuation::RollbackType;
pub use valuation::RollbackAction;
pub use valuation::RollbackCondition;
pub use valuation::MonitoringMetric;
pub use valuation::AlertSeverity;
pub use valuation::AlertThreshold;
pub use valuation::ModelMetrics;
pub use valuation::DeploymentStatus;
pub use valuation::DriftDetectionMethod;
pub use valuation::DriftRecommendation;
pub use valuation::TestRecommendation;
pub use analytics::MarketMetrics;
pub use analytics::PortfolioPerformance;
pub use analytics::MarketTrend;
pub use analytics::PortfolioItem;
pub use analytics::TaxReport;
pub use analytics::PortfolioAggregation;
pub use analytics::UserBehavior;
pub use analytics::MarketReport;
pub use analytics::Fractional;
pub use analytics::AnalyticsDashboard;
pub use analytics::spec_item_price;
pub use analytics::spec_portfolio_total;
pub use analytics::spec_pair_sum;
pub use analytics::spec_empty_trend;
pub use insurance::InsuranceError;
pub use insurance::PolicyStatus;
pub use insurance::CoverageType;
pub use insurance::ClaimStatus;
pub use insurance::RiskLevel;
pub use insurance::RiskAssessment;
pub use insurance::PremiumCalculation;
pub use insurance::InsuranceToken;
pub use insurance::ActuarialModel;
pub use insurance::PoolLiquidityProvider;
pub use insurance::PolicyCreated;
pub use insurance::PolicyCancelled;
pub use insurance::ClaimSubmitted;
pub use insurance::ClaimApproved;
pub use insurance::PayoutExecuted;
pub use insurance::PoolCapitalized;
pub use insurance::ReinsuranceActivated;
pub use insurance::InsuranceTokenMinted;
pub use insurance::InsuranceTokenTransferred;
pub use insurance::RiskAssessmentUpdated;
pub use zk::ZkProofStatus;
pub use zk::ZkProofType;
pub use zk::AuditLog;
pub use zk::VerificationStats;
pub use zk::PrivacyDashboard;
pub use zk::ComplianceStatusSummary;
pub use zk::ZkProofSubmitted;
pub use zk::ZkProofVerified;
pub use zk::ZkProofRejected;
pub use zk::PrivacyPreferencesUpdated;
pub use zk::ZkComplianceUpdated;
pub use bridge::ShareLedger;
pub use shares::DIVIDEND_SCALE;
pub use shares::spec_sat_add;
pub use shares::spec_sat_add_u64;
pub use shares::spec_sat_mul;
pub use shares::sat_mul;
pub use shares::spec_div_after;
pub use shares::spec_empty_tax;
pub use batch::spec_batch_apply;
pub use batch::spec_batch_step;
pub use batch::spec_overlay;
pub use audit::StaticAnalysisResults;
pub use audit::DependencyScanResults;
pub use audit::CodeQualityResults;
pub use audit::GasOptimizationResults;
pub use audit::audit_score;
pub use audit::spec_audit_score;
pub use audit::count_occurrences;
pub use audit::spec_count_occurrences;
pub use monitor::spec_bridge_status_of;
pub use monitor::spec_mirrored_status;
pub use protocol::spec_expired;
pub use protocol::spec_expiry;
pub use token::spec_mint_record_hash;
pub use token::spec_transfer_record_hash;
