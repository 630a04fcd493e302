use vstd::prelude::*;

use crate::account::AccountId;
use crate::hash::TxHash;

verus! {

/// A token on the local ledger.
pub type TokenId = u64;

/// An independent ledger a token can be bridged to or from.
pub type ChainId = u64;

/// Errors returned by the property token operations.
#[derive(Debug, Clone, Copy, PartialEq, Eq, Structural)]
pub enum Error {
    TokenNotFound,
    Unauthorized,
    PropertyNotFound,
    InvalidMetadata,
    DocumentNotFound,
    ComplianceFailed,
    BridgeNotSupported,
    InvalidChain,
    BridgeLocked,
    InsufficientSignatures,
    RequestExpired,
    InvalidRequest,
    BridgePaused,
    GasLimitExceeded,
    MetadataCorruption,
    InvalidBridgeOperator,
    DuplicateBridgeRequest,
    BridgeTimeout,
    AlreadySigned,
    InsufficientBalance,
    InvalidAmount,
    ProposalNotFound,
    ProposalClosed,
    AskNotFound,
}

/// Descriptive fields of a registered property.
#[derive(Debug, PartialEq)]
pub struct PropertyMetadata {
    pub location: String,
    pub size: u64,
    pub legal_description: String,
    pub valuation: u128,
    pub documents_url: String,
}

impl Clone for PropertyMetadata {
    fn clone(&self) -> (r: Self)
        ensures
            r == *self,
    {
        PropertyMetadata {
            location: self.location.clone(),
            size: self.size,
            legal_description: self.legal_description.clone(),
            valuation: self.valuation,
            documents_url: self.documents_url.clone(),
        }
    }
}

/// A registered property and its registration facts.
#[derive(Debug, PartialEq)]
pub struct PropertyInfo {
    pub id: u64,
    pub owner: AccountId,
    pub metadata: PropertyMetadata,
    pub registered_at: u64,
}

impl Clone for PropertyInfo {
    fn clone(&self) -> (r: Self)
        ensures
            r == *self,
    {
        PropertyInfo {
            id: self.id,
            owner: self.owner,
            metadata: self.metadata.clone(),
            registered_at: self.registered_at,
        }
    }
}

/// One step in a token's ownership history.
#[derive(Debug, Clone, Copy, PartialEq, Eq, Structural)]
pub struct OwnershipTransfer {
    pub from: AccountId,
    pub to: AccountId,
    pub timestamp: u64,
    pub transaction_hash: TxHash,
}

/// The compliance flag of a token, with its provenance.
#[derive(Debug, PartialEq)]
pub struct ComplianceInfo {
    pub verified: bool,
    pub verification_date: u64,
    pub verifier: AccountId,
    pub compliance_type: String,
}

impl Clone for ComplianceInfo {
    fn clone(&self) -> (r: Self)
        ensures
            r == *self,
    {
        ComplianceInfo {
            verified: self.verified,
            verification_date: self.verification_date,
            verifier: self.verifier,
            compliance_type: self.compliance_type.clone(),
        }
    }
}

/// A legal document attached to a token.
#[derive(Debug, PartialEq)]
pub struct DocumentInfo {
    pub document_hash: TxHash,
    pub document_type: String,
    pub upload_date: u64,
    pub uploader: AccountId,
}

impl Clone for DocumentInfo {
    fn clone(&self) -> (r: Self)
        ensures
            r == *self,
    {
        DocumentInfo {
            document_hash: self.document_hash,
            document_type: self.document_type.clone(),
            upload_date: self.upload_date,
            uploader: self.uploader,
        }
    }
}

/// The state of a bridge request.
#[derive(Debug, Clone, Copy, PartialEq, Eq, Structural)]
pub enum BridgeOperationStatus {
    Pending,
    Locked,
    InTransit,
    Completed,
    Failed,
    Recovering,
    Expired,
}

/// The state of a bridged token record.
#[derive(Debug, Clone, Copy, PartialEq, Eq, Structural)]
pub enum BridgingStatus {
    Locked,
    Pending,
    InTransit,
    Completed,
    Failed,
    Recovering,
    Expired,
}

/// The administrator's options when recovering a failed or expired bridge.
#[derive(Debug, Clone, Copy, PartialEq, Eq, Structural)]
pub enum RecoveryAction {
    UnlockToken,
    RefundGas,
    RetryBridge,
    CancelBridge,
}

/// Process-wide bridge parameters, mutable only by the administrator.
#[derive(Debug, PartialEq)]
pub struct BridgeConfig {
    pub supported_chains: Vec<ChainId>,
    pub min_signatures_required: u8,
    pub max_signatures_required: u8,
    pub default_timeout_blocks: u64,
    pub gas_limit_per_bridge: u64,
    pub emergency_pause: bool,
    pub metadata_preservation: bool,
}

/// Copies a vector of ledger identifiers.
pub fn clone_chain_list(v: &Vec<ChainId>) -> (r: Vec<ChainId>)
    ensures
        r@ == v@,
{
    let mut r: Vec<ChainId> = Vec::new();
    let mut i: usize = 0;
    while i < v.len()
        invariant
            0 <= i <= v.len(),
            r@ == v@.subrange(0, i as int),
        decreases v.len() - i,
    {
        r.push(v[i]);
        i = i + 1;
        proof {
            assert(r@ =~= v@.subrange(0, i as int));
        }
    }
    proof {
        assert(r@ =~= v@);
    }
    r
}

impl Clone for BridgeConfig {
    fn clone(&self) -> (r: Self)
        ensures
            r.supported_chains@ == self.supported_chains@,
            r.min_signatures_required == self.min_signatures_required,
            r.max_signatures_required == self.max_signatures_required,
            r.default_timeout_blocks == self.default_timeout_blocks,
            r.gas_limit_per_bridge == self.gas_limit_per_bridge,
            r.emergency_pause == self.emergency_pause,
            r.metadata_preservation == self.metadata_preservation,
    {
        BridgeConfig {
            supported_chains: clone_chain_list(&self.supported_chains),
            min_signatures_required: self.min_signatures_required,
            max_signatures_required: self.max_signatures_required,
            default_timeout_blocks: self.default_timeout_blocks,
            gas_limit_per_bridge: self.gas_limit_per_bridge,
            emergency_pause: self.emergency_pause,
            metadata_preservation: self.metadata_preservation,
        }
    }
}

/// One in-flight or historical bridge attempt.
#[derive(Debug, PartialEq)]
pub struct MultisigBridgeRequest {
    pub request_id: u64,
    pub token_id: TokenId,
    pub source_chain: ChainId,
    pub destination_chain: ChainId,
    pub sender: AccountId,
    pub recipient: AccountId,
    pub required_signatures: u8,
    pub signatures: Vec<AccountId>,
    pub created_at: u64,
    pub expires_at: Option<u64>,
    pub status: BridgeOperationStatus,
    pub metadata: PropertyMetadata,
}

/// Copies a vector of account identifiers.
pub fn clone_account_list(v: &Vec<AccountId>) -> (r: Vec<AccountId>)
    ensures
        r@ == v@,
{
    let mut r: Vec<AccountId> = Vec::new();
    let mut i: usize = 0;
    while i < v.len()
        invariant
            0 <= i <= v.len(),
            r@ == v@.subrange(0, i as int),
        decreases v.len() - i,
    {
        r.push(v[i]);
        i = i + 1;
        proof {
            assert(r@ =~= v@.subrange(0, i as int));
        }
    }
    proof {
        assert(r@ =~= v@);
    }
    r
}

/// The cross-ledger record of a bridged token, keyed by destination ledger
/// and token.
#[derive(Debug, Clone, Copy, PartialEq, Eq, Structural)]
pub struct BridgedTokenInfo {
    pub original_chain: ChainId,
    pub original_token_id: TokenId,
    pub destination_chain: ChainId,
    pub destination_token_id: TokenId,
    pub bridged_at: u64,
    pub status: BridgingStatus,
}

/// An immutable audit record of one bridge execution.
#[derive(Debug, PartialEq)]
pub struct BridgeTransaction {
    pub transaction_id: u64,
    pub token_id: TokenId,
    pub source_chain: ChainId,
    pub destination_chain: ChainId,
    pub sender: AccountId,
    pub recipient: AccountId,
    pub transaction_hash: TxHash,
    pub timestamp: u64,
    pub gas_used: u64,
    pub status: BridgeOperationStatus,
    pub metadata: PropertyMetadata,
}

impl Clone for BridgeTransaction {
    fn clone(&self) -> (r: Self)
        ensures
            r == *self,
    {
        BridgeTransaction {
            transaction_id: self.transaction_id,
            token_id: self.token_id,
            source_chain: self.source_chain,
            destination_chain: self.destination_chain,
            sender: self.sender,
            recipient: self.recipient,
            transaction_hash: self.transaction_hash,
            timestamp: self.timestamp,
            gas_used: self.gas_used,
            status: self.status,
            metadata: self.metadata.clone(),
        }
    }
}

/// The read-only projection of a request for dashboards.
#[derive(Debug, PartialEq)]
pub struct BridgeMonitoringInfo {
    pub bridge_request_id: u64,
    pub token_id: TokenId,
    pub source_chain: ChainId,
    pub destination_chain: ChainId,
    pub status: BridgeOperationStatus,
    pub created_at: u64,
    pub expires_at: Option<u64>,
    pub signatures_collected: u8,
    pub signatures_required: u8,
    pub error_message: Option<String>,
}

/// The read-only bridge status of a token.
#[derive(Debug, Clone, Copy, PartialEq, Eq, Structural)]
pub struct BridgeStatus {
    pub is_locked: bool,
    pub source_chain: Option<ChainId>,
    pub destination_chain: Option<ChainId>,
    pub locked_at: Option<u64>,
    pub bridge_request_id: Option<u64>,
    pub status: BridgeOperationStatus,
}

/// A governance proposal on a token's shares.
#[derive(Debug, Clone, Copy, PartialEq, Eq, Structural)]
pub struct Proposal {
    pub id: u64,
    pub token_id: TokenId,
    pub description_hash: TxHash,
    pub quorum: u128,
    pub for_votes: u128,
    pub against_votes: u128,
    pub status: ProposalStatus,
    pub created_at: u64,
}

/// The state of a governance proposal.
#[derive(Debug, Clone, Copy, PartialEq, Eq, Structural)]
pub enum ProposalStatus {
    Open,
    Executed,
    Rejected,
    Closed,
}

/// An open offer to sell shares of a token.
#[derive(Debug, Clone, Copy, PartialEq, Eq, Structural)]
pub struct Ask {
    pub token_id: TokenId,
    pub seller: AccountId,
    pub price_per_share: u128,
    pub amount: u128,
    pub created_at: u64,
}

/// Accumulated taxable activity of an account on one token.
#[derive(Debug, Clone, Copy, PartialEq, Eq, Structural)]
pub struct TaxRecord {
    pub dividends_received: u128,
    pub shares_sold: u128,
    pub proceeds: u128,
}

/// One recorded error, kept for monitoring.
#[derive(Debug, PartialEq)]
pub struct ErrorLogEntry {
    pub error_code: String,
    pub message: String,
    pub account: AccountId,
    pub timestamp: u64,
    pub context: Vec<(String, String)>,
}

} // verus!
