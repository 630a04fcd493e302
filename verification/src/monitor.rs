use vstd::prelude::*;
use vstd::string::StrSliceExecFns;

use crate::account::AccountId;
use crate::bridge::PropertyToken;
use crate::hash::TxHash;
use crate::types::BridgeMonitoringInfo;
use crate::types::BridgeOperationStatus;
use crate::types::BridgeStatus;
use crate::types::BridgeTransaction;
use crate::types::BridgedTokenInfo;
use crate::types::BridgingStatus;
use crate::types::ChainId;
use crate::types::Error;
use crate::types::TokenId;

verus! {

broadcast use vstd::std_specs::hash::group_hash_axioms;

/// The request status a bridged-token state mirrors.
pub open spec fn spec_mirrored_status(s: BridgingStatus) -> BridgeOperationStatus {
    match s {
        BridgingStatus::Locked => BridgeOperationStatus::Locked,
        BridgingStatus::Pending => BridgeOperationStatus::Pending,
        BridgingStatus::InTransit => BridgeOperationStatus::InTransit,
        BridgingStatus::Completed => BridgeOperationStatus::Completed,
        BridgingStatus::Failed => BridgeOperationStatus::Failed,
        BridgingStatus::Recovering => BridgeOperationStatus::Recovering,
        BridgingStatus::Expired => BridgeOperationStatus::Expired,
    }
}

/// The status projection of one bridged-token record.
pub open spec fn spec_bridge_status_of(info: BridgedTokenInfo) -> BridgeStatus {
    BridgeStatus {
        is_locked: info.status == BridgingStatus::Locked || info.status == BridgingStatus::InTransit,
        source_chain: Some(info.original_chain),
        destination_chain: Some(info.destination_chain),
        locked_at: Some(info.bridged_at),
        bridge_request_id: None,
        status: spec_mirrored_status(info.status),
    }
}

impl PropertyToken {
    /// Returns the read-only projection of a bridge request: its status, how
    /// many signatures are collected of how many required, and its deadline.
    pub fn monitor_bridge_status(&self, request_id: u64) -> (r: Option<BridgeMonitoringInfo>)
        requires
            self.wf(),
        ensures
            match r {
                None => !self.has_request(request_id),
                Some(m) => {
                    let rq = self.req(request_id);
                    &&& self.has_request(request_id)
                    &&& m.bridge_request_id == request_id
                    &&& m.token_id == rq.token_id
                    &&& m.source_chain == rq.source_chain
                    &&& m.destination_chain == rq.destination_chain
                    &&& m.status == rq.status
                    &&& m.created_at == rq.created_at
                    &&& m.expires_at == rq.expires_at
                    &&& m.signatures_collected == rq.signatures@.len() as u8
                    &&& m.signatures_required == rq.required_signatures
                    &&& m.error_message is None
                },
            },
    {
        if !(request_id >= 1 && request_id <= self.bridge_requests.len() as u64) {
            return None;
        }
        let idx = (request_id - 1) as usize;
        proof {
            assert(request_id - 1 < self.bridge_requests@.len());
        }
        let rq = &self.bridge_requests[idx];
        Some(
            BridgeMonitoringInfo {
                bridge_request_id: rq.request_id,
                token_id: rq.token_id,
                source_chain: rq.source_chain,
                destination_chain: rq.destination_chain,
                status: rq.status,
                created_at: rq.created_at,
                expires_at: rq.expires_at,
                signatures_collected: #[verifier::truncate] (rq.signatures.len() as u8),
                signatures_required: rq.required_signatures,
                error_message: None,
            },
        )
    }

    /// Returns a copy of an account's bridge history, oldest first.
    pub fn get_bridge_history(&self, account: AccountId) -> (r: Vec<BridgeTransaction>)
        ensures
            r@ == self.spec_history_of(account),
    {
        let stored = match self.bridge_transactions.get(&account) {
            Some(h) => h,
            None => {
                return Vec::new();
            },
        };
        let mut out: Vec<BridgeTransaction> = Vec::new();
        let mut i: usize = 0;
        while i < stored.len()
            invariant
                stored@ == self.spec_history_of(account),
                0 <= i <= stored@.len(),
                out@ == stored@.subrange(0, i as int),
            decreases stored@.len() - i,
        {
            out.push(stored[i].clone());
            i = i + 1;
            proof {
                assert(out@ =~= stored@.subrange(0, i as int));
            }
        }
        proof {
            assert(out@ =~= stored@);
        }
        out
    }

    /// Membership check against the verified-hash registry. A hash stays
    /// registered forever, also after it has been consumed by a mint.
    pub fn verify_bridge_transaction(
        &self,
        token_id: TokenId,
        transaction_hash: TxHash,
        source_chain: ChainId,
    ) -> (r: bool)
        ensures
            r == self.hash_registered(transaction_hash),
    {
        let mut i: usize = 0;
        while i < self.verified_hashes.len()
            invariant
                0 <= i <= self.verified_hashes@.len(),
                forall|j: int|
                    0 <= j < i ==> (#[trigger] self.verified_hashes@[j]).hash != transaction_hash,
            decreases self.verified_hashes@.len() - i,
        {
            if self.verified_hashes[i].hash == transaction_hash {
                return true;
            }
            i = i + 1;
        }
        false
    }

    /// Returns the bridge status of a token: the projection of its
    /// bridged-token record on the first supported ledger that has one.
    pub fn get_bridge_status(&self, token_id: TokenId) -> (r: Option<BridgeStatus>)
        requires
            self.wf(),
        ensures
            match r {
                None => forall|j: int|
                    0 <= j < self.bridge_config.supported_chains@.len() ==> !self.has_bridged(
                        #[trigger] self.bridge_config.supported_chains@[j],
                        token_id,
                    ),
                Some(st) => exists|j: int|
                    {
                        &&& 0 <= j < self.bridge_config.supported_chains@.len()
                        &&& self.has_bridged(
                            #[trigger] self.bridge_config.supported_chains@[j],
                            token_id,
                        )
                        &&& forall|j2: int|
                            0 <= j2 < j ==> !self.has_bridged(
                                #[trigger] self.bridge_config.supported_chains@[j2],
                                token_id,
                            )
                        &&& st == spec_bridge_status_of(
                            self.bridged_info_at(
                                self.bridge_config.supported_chains@[j],
                                token_id,
                            ),
                        )
                    },
            },
    {
        let mut j: usize = 0;
        let n = self.bridge_config.supported_chains.len();
        while j < n
            invariant
                n == self.bridge_config.supported_chains@.len(),
                self.wf(),
                0 <= j <= n,
                forall|j2: int|
                    0 <= j2 < j ==> !self.has_bridged(
                        #[trigger] self.bridge_config.supported_chains@[j2],
                        token_id,
                    ),
            decreases n - j,
        {
            let chain = self.bridge_config.supported_chains[j];
            let mut i: usize = 0;
            while i < self.bridged_tokens.len()
                invariant
                    0 <= j < self.bridge_config.supported_chains@.len(),
                    chain == self.bridge_config.supported_chains@[j as int],
                    self.wf(),
                    forall|j2: int|
                        0 <= j2 < j ==> !self.has_bridged(
                            #[trigger] self.bridge_config.supported_chains@[j2],
                            token_id,
                        ),
                    0 <= i <= self.bridged_tokens@.len(),
                    forall|k: int|
                        0 <= k < i ==> !((#[trigger] self.bridged_tokens@[k]).chain == chain
                            && self.bridged_tokens@[k].token_id == token_id),
                decreases self.bridged_tokens@.len() - i,
            {
                let e = &self.bridged_tokens[i];
                if e.chain == chain && e.token_id == token_id {
                    proof {
                        self.lemma_bridged_at(chain, token_id, i as int);
                        assert(self.has_bridged(
                            self.bridge_config.supported_chains@[j as int],
                            token_id,
                        ));
                    }
                    let info = e.info;
                    return Some(
                        BridgeStatus {
                            is_locked: info.status == BridgingStatus::Locked || info.status
                                == BridgingStatus::InTransit,
                            source_chain: Some(info.original_chain),
                            destination_chain: Some(info.destination_chain),
                            locked_at: Some(info.bridged_at),
                            bridge_request_id: None,
                            status: match info.status {
                                BridgingStatus::Locked => BridgeOperationStatus::Locked,
                                BridgingStatus::Pending => BridgeOperationStatus::Pending,
                                BridgingStatus::InTransit => BridgeOperationStatus::InTransit,
                                BridgingStatus::Completed => BridgeOperationStatus::Completed,
                                BridgingStatus::Failed => BridgeOperationStatus::Failed,
                                BridgingStatus::Recovering => BridgeOperationStatus::Recovering,
                                BridgingStatus::Expired => BridgeOperationStatus::Expired,
                            },
                        },
                    );
                }
                i = i + 1;
            }
            j = j + 1;
        }
        None
    }

    /// The gas estimate for bridging a token: the configured budget plus a
    /// charge per character of the legal description.
    pub open spec fn estimate_gas_outcome(
        s: PropertyToken,
        token_id: TokenId,
        destination_chain: ChainId,
    ) -> Result<u64, Error> {
        if !s.bridge_config.supported_chains@.contains(destination_chain) {
            Err(Error::InvalidChain)
        } else if !s.has_token(token_id) {
            Err(Error::TokenNotFound)
        } else {
            Ok(
                (s.bridge_config.gas_limit_per_bridge + s.token_at(
                    token_id,
                ).property.metadata.legal_description@.len() * 100) as u64,
            )
        }
    }

    /// Advisory gas estimate for a bridge operation.
    pub fn estimate_bridge_gas(&self, token_id: TokenId, destination_chain: ChainId) -> (r: Result<
        u64,
        Error,
    >)
        requires
            self.has_token(token_id) ==> self.bridge_config.gas_limit_per_bridge + self.token_at(
                token_id,
            ).property.metadata.legal_description@.len() * 100 <= u64::MAX,
        ensures
            r == Self::estimate_gas_outcome(*self, token_id, destination_chain),
    {
        if !self.chain_supported(destination_chain) {
            return Err(Error::InvalidChain);
        }
        if !(token_id >= 1 && token_id <= self.tokens.len() as u64) {
            return Err(Error::TokenNotFound);
        }
        let idx = self.token_index(token_id);
        let desc_len = self.tokens[idx].property.metadata.legal_description.as_str().unicode_len();
        Ok(self.bridge_config.gas_limit_per_bridge + (desc_len as u64) * 100)
    }
}

} // verus!
