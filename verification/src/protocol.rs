use vstd::prelude::*;
use vstd::string::StrSliceExecFns;

use crate::account::AccountId;
use crate::account::SENTINEL;
use crate::bridge::BridgedEntry;
use crate::bridge::LOCAL_CHAIN;
use crate::bridge::PropertyToken;
use crate::types::BridgeOperationStatus;
use crate::types::ChainId;
use crate::types::Error;
use crate::types::BridgeTransaction;
use crate::types::BridgedTokenInfo;
use crate::types::BridgingStatus;
use crate::types::MultisigBridgeRequest;
use crate::types::TokenId;

verus! {

broadcast use vstd::std_specs::hash::group_hash_axioms;

/// True when, at the given block height, the request's deadline has passed.
pub open spec fn spec_expired(r: MultisigBridgeRequest, block_number: u64) -> bool {
    match r.expires_at {
        Some(e) => block_number > e,
        None => false,
    }
}

/// The deadline a new request gets from an optional timeout.
pub open spec fn spec_expiry(block_number: u64, timeout_blocks: Option<u64>) -> Option<u64> {
    match timeout_blocks {
        Some(t) => Some((block_number + t) as u64),
        None => None,
    }
}

impl PropertyToken {
    /// Looks a destination ledger up in the supported list.
    pub fn chain_supported(&self, chain: ChainId) -> (r: bool)
        ensures
            r == self.bridge_config.supported_chains@.contains(chain),
    {
        let chains = &self.bridge_config.supported_chains;
        let mut i: usize = 0;
        while i < chains.len()
            invariant
                chains@ == self.bridge_config.supported_chains@,
                0 <= i <= chains@.len(),
                forall|j: int| 0 <= j < i ==> chains@[j] != chain,
            decreases chains@.len() - i,
        {
            if chains[i] == chain {
                proof {
                    assert(self.bridge_config.supported_chains@.contains(chain)) by {
                        assert(self.bridge_config.supported_chains@[i as int] == chain);
                    }
                }
                return true;
            }
            i = i + 1;
        }
        false
    }

    /// Scans the request ledger for a non-terminal request on the token.
    pub fn has_pending_bridge_request(&self, token_id: TokenId) -> (r: bool)
        ensures
            r == self.has_pending_for(token_id),
    {
        let mut i: usize = 0;
        while i < self.bridge_requests.len()
            invariant
                0 <= i <= self.bridge_requests@.len(),
                forall|j: int|
                    0 <= j < i ==> !((#[trigger] self.bridge_requests@[j]).token_id == token_id
                        && Self::is_active_status(self.bridge_requests@[j].status)),
            decreases self.bridge_requests@.len() - i,
        {
            let status = self.bridge_requests[i].status;
            if self.bridge_requests[i].token_id == token_id && (status
                == BridgeOperationStatus::Pending || status == BridgeOperationStatus::Locked) {
                return true;
            }
            i = i + 1;
        }
        false
    }

    /// The vector index of an existing request.
    fn request_index(&self, request_id: u64) -> (idx: usize)
        requires
            self.has_request(request_id),
        ensures
            idx == request_id - 1,
            idx < self.bridge_requests@.len(),
    {
        let n = self.bridge_requests.len();
        proof {
            assert(request_id - 1 < self.bridge_requests@.len());
            assert(self.bridge_requests@.len() == n);
        }
        (request_id - 1) as usize
    }

    /// The outcome `initiate_bridge_multisig` owes, by the priority of its
    /// checks: only the holder of a live, compliance-verified token may open
    /// a bridge, the bridge must not be paused, the destination must be
    /// supported, the threshold must lie within the configured bounds, and no
    /// other non-terminal request may exist for the token. On success the
    /// next request id is returned.
    pub open spec fn initiate_outcome(
        s: PropertyToken,
        caller: AccountId,
        token_id: TokenId,
        destination_chain: ChainId,
        required_signatures: u8,
    ) -> Result<u64, Error> {
        if s.spec_owner_of(token_id) is None {
            Err(Error::TokenNotFound)
        } else if s.spec_owner_of(token_id) != Some(caller) || caller == SENTINEL {
            Err(Error::Unauthorized)
        } else if s.bridge_config.emergency_pause {
            Err(Error::BridgePaused)
        } else if !s.bridge_config.supported_chains@.contains(destination_chain) {
            Err(Error::InvalidChain)
        } else if !s.token_at(token_id).compliance.verified {
            Err(Error::ComplianceFailed)
        } else if required_signatures < s.bridge_config.min_signatures_required
            || required_signatures > s.bridge_config.max_signatures_required {
            Err(Error::InsufficientSignatures)
        } else if s.has_pending_for(token_id) {
            Err(Error::DuplicateBridgeRequest)
        } else {
            Ok((s.bridge_requests@.len() + 1) as u64)
        }
    }

    /// Opens a bridge request for a token the caller holds. A metadata
    /// snapshot is stored with the request, the status starts at `Pending`,
    /// and the optional timeout fixes the deadline `block_number + timeout`.
    /// A failed call leaves the state as it was.
    pub fn initiate_bridge_multisig(
        &mut self,
        caller: AccountId,
        block_number: u64,
        token_id: TokenId,
        destination_chain: ChainId,
        recipient: AccountId,
        required_signatures: u8,
        timeout_blocks: Option<u64>,
    ) -> (r: Result<u64, Error>)
        requires
            old(self).wf(),
            old(self).bridge_requests@.len() < u64::MAX,
            Self::initiate_outcome(
                *old(self),
                caller,
                token_id,
                destination_chain,
                required_signatures,
            ) is Ok && timeout_blocks is Some ==> block_number + timeout_blocks->Some_0
                <= u64::MAX,
        ensures
            final(self).wf(),
            r == Self::initiate_outcome(
                *old(self),
                caller,
                token_id,
                destination_chain,
                required_signatures,
            ),
            r is Err ==> *final(self) == *old(self),
            r is Ok ==> {
                let id = (old(self).bridge_requests@.len() + 1) as u64;
                let nr = final(self).req(id);
                &&& final(self).bridge_requests@.len() == old(self).bridge_requests@.len() + 1
                &&& forall|i: int|
                    0 <= i < old(self).bridge_requests@.len()
                        ==> final(self).bridge_requests@[i] == old(self).bridge_requests@[i]
                &&& nr.request_id == id
                &&& nr.token_id == token_id
                &&& nr.source_chain == LOCAL_CHAIN
                &&& nr.destination_chain == destination_chain
                &&& nr.sender == caller
                &&& nr.recipient == recipient
                &&& nr.required_signatures == required_signatures
                &&& nr.signatures@ == Seq::<AccountId>::empty()
                &&& nr.created_at == block_number
                &&& nr.expires_at == spec_expiry(block_number, timeout_blocks)
                &&& nr.status == BridgeOperationStatus::Pending
                &&& nr.metadata == old(self).token_at(token_id).property.metadata
                &&& final(self).has_pending_for(token_id)
            },
            final(self).admin == old(self).admin,
            final(self).shares == old(self).shares,
            final(self).tokens == old(self).tokens,
            final(self).balances == old(self).balances,
            final(self).owner_token_count == old(self).owner_token_count,
            final(self).operator_approvals == old(self).operator_approvals,
            final(self).total_supply == old(self).total_supply,
            final(self).bridge_config == old(self).bridge_config,
            final(self).bridge_operators == old(self).bridge_operators,
            final(self).verified_hashes == old(self).verified_hashes,
            final(self).bridged_tokens == old(self).bridged_tokens,
            final(self).bridge_transactions == old(self).bridge_transactions,
    {
        let owner = self.owner_of(token_id);
        let owner = match owner {
            None => {
                return Err(Error::TokenNotFound);
            },
            Some(o) => o,
        };
        if owner != caller || caller == SENTINEL {
            return Err(Error::Unauthorized);
        }
        if self.bridge_config.emergency_pause {
            return Err(Error::BridgePaused);
        }
        if !self.chain_supported(destination_chain) {
            return Err(Error::InvalidChain);
        }
        let idx = self.token_index(token_id);
        if !self.tokens[idx].compliance.verified {
            return Err(Error::ComplianceFailed);
        }
        if required_signatures < self.bridge_config.min_signatures_required
            || required_signatures > self.bridge_config.max_signatures_required {
            return Err(Error::InsufficientSignatures);
        }
        if self.has_pending_bridge_request(token_id) {
            return Err(Error::DuplicateBridgeRequest);
        }
        let request_id: u64 = self.bridge_requests.len() as u64 + 1;
        let expires_at = match timeout_blocks {
            Some(t) => Some(block_number + t),
            None => None,
        };
        let metadata = self.tokens[idx].property.metadata.clone();
        let request = MultisigBridgeRequest {
            request_id,
            token_id,
            source_chain: LOCAL_CHAIN,
            destination_chain,
            sender: caller,
            recipient,
            required_signatures,
            signatures: Vec::new(),
            created_at: block_number,
            expires_at,
            status: BridgeOperationStatus::Pending,
            metadata,
        };
        self.bridge_requests.push(request);
        proof {
            let n = old(self).bridge_requests@.len() as int;
            assert(self.bridge_requests@[n].token_id == token_id && Self::is_active_status(
                self.bridge_requests@[n].status,
            ));
            assert forall|i: int, j: int|
                0 <= i < j < self.bridge_requests@.len() && Self::is_active_status(
                    (#[trigger] self.bridge_requests@[i]).status,
                ) && Self::is_active_status((#[trigger] self.bridge_requests@[j]).status) implies
                self.bridge_requests@[i].token_id != self.bridge_requests@[j].token_id by {
                if j < n {
                    assert(old(self).single_active_per_token());
                } else {
                    // The new request is at j == n; an active older request on
                    // the same token would have made the duplicate check fail.
                    assert(!old(self).has_pending_for(token_id));
                }
            }
            assert forall|i: int|
                0 <= i < self.bridge_requests@.len() && (#[trigger] self.bridge_requests@[i]).status
                    == BridgeOperationStatus::Locked implies self.spec_owner_of(
                self.bridge_requests@[i].token_id,
            ) == Some(SENTINEL) by {
                assert(old(self).bridge_requests@[i] == self.bridge_requests@[i]);
                assert(old(self).spec_owner_of(self.bridge_requests@[i].token_id) == Some(
                    SENTINEL,
                ));
            }
        }
        Ok(request_id)
    }

    /// Looks a signer up in a signature list.
    fn signatures_contain(sigs: &Vec<AccountId>, account: AccountId) -> (r: bool)
        ensures
            r == sigs@.contains(account),
    {
        let mut i: usize = 0;
        while i < sigs.len()
            invariant
                0 <= i <= sigs@.len(),
                forall|j: int| 0 <= j < i ==> sigs@[j] != account,
            decreases sigs@.len() - i,
        {
            if sigs[i] == account {
                proof {
                    assert(sigs@.contains(account)) by {
                        assert(sigs@[i as int] == account);
                    }
                }
                return true;
            }
            i = i + 1;
        }
        false
    }

    /// The outcome `sign_bridge_request` owes, by the priority of its
    /// checks: operators only; the request must exist; a pending request past
    /// its deadline expires instead of taking the signature; a request that
    /// is neither pending nor locked is already processed; an operator signs
    /// at most once. A rejection (`approve == false`) succeeds and fails the
    /// request, also after the lock — a single veto always wins. An approval
    /// that reaches the threshold locks the request and freezes the token,
    /// which must then still be live.
    pub open spec fn sign_outcome(
        s: PropertyToken,
        caller: AccountId,
        block_number: u64,
        request_id: u64,
        approve: bool,
    ) -> Result<(), Error> {
        if !s.spec_is_operator(caller) {
            Err(Error::Unauthorized)
        } else if !s.has_request(request_id) {
            Err(Error::InvalidRequest)
        } else if s.req(request_id).status == BridgeOperationStatus::Pending && spec_expired(
            s.req(request_id),
            block_number,
        ) {
            Err(Error::RequestExpired)
        } else if s.req(request_id).status != BridgeOperationStatus::Pending && s.req(
            request_id,
        ).status != BridgeOperationStatus::Locked {
            Err(Error::InvalidRequest)
        } else if s.req(request_id).signatures@.contains(caller) {
            Err(Error::AlreadySigned)
        } else if approve && s.req(request_id).signatures@.len() + 1 >= s.req(
            request_id,
        ).required_signatures && s.spec_owner_of(s.req(request_id).token_id) is None {
            Err(Error::TokenNotFound)
        } else {
            Ok(())
        }
    }

    /// True when this call locks the request and freezes the token.
    pub open spec fn sign_locks(
        s: PropertyToken,
        caller: AccountId,
        block_number: u64,
        request_id: u64,
        approve: bool,
    ) -> bool {
        &&& Self::sign_outcome(s, caller, block_number, request_id, approve) is Ok
        &&& approve
        &&& s.req(request_id).signatures@.len() + 1 >= s.req(request_id).required_signatures
    }

    /// Records one operator's decision on a pending request. A rejection
    /// fails the whole request at once; an approval is recorded, and the one
    /// that reaches the threshold locks the request and freezes the token
    /// (holder forced to the sentinel, balance zeroed) in the same call. A
    /// pending request whose deadline has passed turns `Expired` instead,
    /// and the call reports `RequestExpired`; every other failed call leaves
    /// the state as it was.
    pub fn sign_bridge_request(
        &mut self,
        caller: AccountId,
        block_number: u64,
        request_id: u64,
        approve: bool,
    ) -> (r: Result<(), Error>)
        requires
            old(self).wf(),
        ensures
            final(self).wf(),
            r == Self::sign_outcome(*old(self), caller, block_number, request_id, approve),
            r == Err::<(), Error>(Error::RequestExpired) ==> {
                &&& final(self).bridge_requests@ == old(self).bridge_requests@.update(
                    request_id - 1,
                    (MultisigBridgeRequest {
                        status: BridgeOperationStatus::Expired,
                        ..old(self).req(request_id)
                    }),
                )
                &&& final(self).tokens == old(self).tokens
                &&& final(self).balances == old(self).balances
            },
            r is Err && r != Err::<(), Error>(Error::RequestExpired) ==> *final(self) == *old(self),
            r is Ok ==> {
                let oreq = old(self).req(request_id);
                let nreq = final(self).req(request_id);
                &&& final(self).bridge_requests@ == old(self).bridge_requests@.update(
                    request_id - 1,
                    nreq,
                )
                &&& nreq.signatures@ == oreq.signatures@.push(caller)
                &&& nreq == (MultisigBridgeRequest {
                    status: nreq.status,
                    signatures: nreq.signatures,
                    ..oreq
                })
                &&& nreq.status == if !approve {
                    BridgeOperationStatus::Failed
                } else if oreq.signatures@.len() + 1 >= oreq.required_signatures {
                    BridgeOperationStatus::Locked
                } else {
                    oreq.status
                }
            },
            r is Ok && !Self::sign_locks(*old(self), caller, block_number, request_id, approve)
                ==> {
                &&& final(self).tokens == old(self).tokens
                &&& final(self).balances == old(self).balances
            },
            Self::sign_locks(*old(self), caller, block_number, request_id, approve) ==> {
                let t = old(self).req(request_id).token_id;
                let holder = old(self).spec_owner_of(t)->Some_0;
                &&& final(self).spec_owner_of(t) == Some(SENTINEL)
                &&& final(self).tokens@ == old(self).tokens@.update(
                    t - 1,
                    (crate::bridge::TokenRecord { owner: Some(SENTINEL), ..old(self).token_at(t) }),
                )
                &&& final(self).balances@ == old(self).balances@.insert(
                    crate::bridge::spec_key(holder, t),
                    0u128,
                )
                &&& final(self).spec_balance(holder, t) == 0
            },
            final(self).admin == old(self).admin,
            final(self).shares == old(self).shares,
            final(self).owner_token_count == old(self).owner_token_count,
            final(self).operator_approvals == old(self).operator_approvals,
            final(self).total_supply == old(self).total_supply,
            final(self).bridge_config == old(self).bridge_config,
            final(self).bridge_operators == old(self).bridge_operators,
            final(self).verified_hashes == old(self).verified_hashes,
            final(self).bridged_tokens == old(self).bridged_tokens,
            final(self).bridge_transactions == old(self).bridge_transactions,
    {
        if !self.is_bridge_operator(caller) {
            return Err(Error::Unauthorized);
        }
        if !(request_id >= 1 && request_id <= self.bridge_requests.len() as u64) {
            return Err(Error::InvalidRequest);
        }
        let idx = self.request_index(request_id);
        let status = self.bridge_requests[idx].status;
        let expired = match self.bridge_requests[idx].expires_at {
            Some(e) => block_number > e,
            None => false,
        };
        if status == BridgeOperationStatus::Pending && expired {
            // Lazy expiry: the overdue request is marked on this interaction.
            let mut r = self.bridge_requests.remove(idx);
            r.status = BridgeOperationStatus::Expired;
            self.bridge_requests.insert(idx, r);
            proof {
                assert(self.bridge_requests@ =~= old(self).bridge_requests@.update(
                    request_id - 1,
                    self.bridge_requests@[request_id - 1],
                ));
                assert forall|i: int|
                    0 <= i < self.bridge_requests@.len() && (
                    #[trigger] self.bridge_requests@[i]).status == BridgeOperationStatus::Locked
                    implies self.spec_owner_of(self.bridge_requests@[i].token_id) == Some(
                    SENTINEL,
                ) by {
                    assert(old(self).bridge_requests@[i] == self.bridge_requests@[i]);
                    assert(old(self).spec_owner_of(self.bridge_requests@[i].token_id) == Some(
                        SENTINEL,
                    ));
                }
            }
            return Err(Error::RequestExpired);
        }
        if status != BridgeOperationStatus::Pending && status != BridgeOperationStatus::Locked {
            return Err(Error::InvalidRequest);
        }
        if Self::signatures_contain(&self.bridge_requests[idx].signatures, caller) {
            return Err(Error::AlreadySigned);
        }
        let required = self.bridge_requests[idx].required_signatures;
        let token_id = self.bridge_requests[idx].token_id;
        let req_us = required as usize;
        let will_lock = approve && (req_us == 0 || self.bridge_requests[idx].signatures.len()
            >= req_us - 1);
        if will_lock {
            let holder = match self.owner_of(token_id) {
                None => {
                    return Err(Error::TokenNotFound);
                },
                Some(h) => h,
            };
            // Freeze the token: balance zeroed, holder forced to the sentinel.
            let key = crate::bridge::pack_key(holder, token_id);
            self.balances.insert(key, 0);
            let tidx = self.token_index(token_id);
            let mut rec = self.tokens.remove(tidx);
            rec.owner = Some(SENTINEL);
            self.tokens.insert(tidx, rec);
            proof {
                assert(self.tokens@ =~= old(self).tokens@.update(
                    token_id - 1,
                    self.tokens@[token_id - 1],
                ));
            }
        }
        let mut r = self.bridge_requests.remove(idx);
        r.signatures.push(caller);
        if !approve {
            r.status = BridgeOperationStatus::Failed;
        } else if will_lock {
            r.status = BridgeOperationStatus::Locked;
        }
        self.bridge_requests.insert(idx, r);
        proof {
            let oreq = old(self).req(request_id);
            let nreq = self.req(request_id);
            assert(self.bridge_requests@ =~= old(self).bridge_requests@.update(
                request_id - 1,
                nreq,
            ));
            // Uniqueness of signatures in the touched request.
            assert forall|i: int|
                0 <= i < self.bridge_requests@.len() implies Self::signatures_unique_in(
                #[trigger] self.bridge_requests@[i],
            ) by {
                if i == request_id - 1 {
                    assert(Self::signatures_unique_in(oreq));
                    assert forall|j: int, k: int|
                        0 <= j < k < nreq.signatures@.len() implies nreq.signatures@[j]
                        != nreq.signatures@[k] by {
                        if k == nreq.signatures@.len() - 1 {
                            assert(nreq.signatures@[j] == oreq.signatures@[j]);
                            assert(!oreq.signatures@.contains(caller));
                        }
                    }
                } else {
                    assert(Self::signatures_unique_in(old(self).bridge_requests@[i]));
                }
            }
            // One active request per token is kept: the touched request either
            // leaves the active set or keeps its token.
            assert forall|i: int, j: int|
                0 <= i < j < self.bridge_requests@.len() && Self::is_active_status(
                    (#[trigger] self.bridge_requests@[i]).status,
                ) && Self::is_active_status((#[trigger] self.bridge_requests@[j]).status) implies
                self.bridge_requests@[i].token_id != self.bridge_requests@[j].token_id by {
                let oi = old(self).bridge_requests@[i];
                let oj = old(self).bridge_requests@[j];
                assert(old(self).single_active_per_token());
                assert(Self::is_active_status(oi.status) && Self::is_active_status(oj.status));
            }
            // Locked requests keep frozen tokens.
            assert forall|i: int|
                0 <= i < self.bridge_requests@.len() && (#[trigger] self.bridge_requests@[i]).status
                    == BridgeOperationStatus::Locked implies self.spec_owner_of(
                self.bridge_requests@[i].token_id,
            ) == Some(SENTINEL) by {
                if i == request_id - 1 {
                    if !will_lock {
                        // The request was already locked and stays so; the
                        // token was frozen before and is untouched.
                        assert(old(self).bridge_requests@[i].status
                            == BridgeOperationStatus::Locked);
                        assert(old(self).spec_owner_of(self.bridge_requests@[i].token_id) == Some(
                            SENTINEL,
                        ));
                    }
                } else {
                    assert(old(self).bridge_requests@[i] == self.bridge_requests@[i]);
                    assert(old(self).spec_owner_of(self.bridge_requests@[i].token_id) == Some(
                        SENTINEL,
                    ));
                    if will_lock {
                        // A second locked request on the frozen token would
                        // contradict the single-active invariant.
                        assert(self.bridge_requests@[i].token_id != token_id);
                    }
                }
            }
        }
        Ok(())
    }

    /// Locates the bridged-token record for (chain, token), if any.
    fn bridged_find(&self, chain: ChainId, token_id: TokenId) -> (r: Option<usize>)
        ensures
            match r {
                Some(i) => i < self.bridged_tokens@.len() && self.bridged_tokens@[i as int].chain
                    == chain && self.bridged_tokens@[i as int].token_id == token_id,
                None => !self.has_bridged(chain, token_id),
            },
    {
        let mut i: usize = 0;
        while i < self.bridged_tokens.len()
            invariant
                0 <= i <= self.bridged_tokens@.len(),
                forall|j: int|
                    0 <= j < i ==> !((#[trigger] self.bridged_tokens@[j]).chain == chain
                        && self.bridged_tokens@[j].token_id == token_id),
            decreases self.bridged_tokens@.len() - i,
        {
            if self.bridged_tokens[i].chain == chain && self.bridged_tokens[i].token_id
                == token_id {
                return Some(i);
            }
            i = i + 1;
        }
        None
    }

    /// With unique keys, the record any matching index holds is the record of
    /// the key.
    pub(crate) proof fn lemma_bridged_at(self, chain: ChainId, token_id: TokenId, i: int)
        requires
            self.bridged_keys_unique(),
            0 <= i < self.bridged_tokens@.len(),
            self.bridged_tokens@[i].chain == chain,
            self.bridged_tokens@[i].token_id == token_id,
        ensures
            self.has_bridged(chain, token_id),
            self.bridged_info_at(chain, token_id) == self.bridged_tokens@[i].info,
    {
        assert(self.has_bridged(chain, token_id)) by {
            assert(self.bridged_tokens@[i].chain == chain && self.bridged_tokens@[i].token_id
                == token_id);
        }
        let j = self.bridged_index(chain, token_id);
        if i != j {
            if i < j {
                assert(!(self.bridged_tokens@[i].chain == self.bridged_tokens@[j].chain
                    && self.bridged_tokens@[i].token_id == self.bridged_tokens@[j].token_id));
            } else {
                assert(!(self.bridged_tokens@[j].chain == self.bridged_tokens@[i].chain
                    && self.bridged_tokens@[j].token_id == self.bridged_tokens@[i].token_id));
            }
        }
    }

    /// The gas estimate recorded with an execution: a base charge, a charge
    /// per character of the legal description, and one per required
    /// signature.
    pub open spec fn spec_execution_gas(r: MultisigBridgeRequest) -> int {
        100000 + r.metadata.legal_description@.len() * 100 + r.required_signatures * 5000
    }

    /// The outcome `execute_bridge` owes: operators only, on an existing
    /// request that is `Locked` with its threshold met.
    pub open spec fn execute_outcome(
        s: PropertyToken,
        caller: AccountId,
        request_id: u64,
    ) -> Result<(), Error> {
        if !s.spec_is_operator(caller) {
            Err(Error::Unauthorized)
        } else if !s.has_request(request_id) {
            Err(Error::InvalidRequest)
        } else if s.req(request_id).status != BridgeOperationStatus::Locked {
            Err(Error::InvalidRequest)
        } else if s.req(request_id).signatures@.len() < s.req(request_id).required_signatures {
            Err(Error::InsufficientSignatures)
        } else {
            Ok(())
        }
    }

    /// Executes a locked request: derives the transaction hash, records it
    /// in the verified-hash registry, appends the audit record to the
    /// sender's history, writes the bridged-token record as `InTransit`, and
    /// completes the request — all in one step. Only this operation writes
    /// the registry. A failed call leaves the state as it was.
    pub fn execute_bridge(&mut self, caller: AccountId, timestamp: u64, request_id: u64) -> (r:
        Result<(), Error>)
        requires
            old(self).wf(),
            Self::execute_outcome(*old(self), caller, request_id) is Ok ==> old(self).req(
                request_id,
            ).metadata.legal_description@.len() <= 0xffff_ffff && old(
                self,
            ).verified_hashes@.len() < usize::MAX,
        ensures
            final(self).wf(),
            r == Self::execute_outcome(*old(self), caller, request_id),
            r is Err ==> *final(self) == *old(self),
            r is Ok ==> {
                let oreq = old(self).req(request_id);
                let h = crate::hash::spec_bridge_hash(
                    request_id,
                    oreq.token_id,
                    oreq.source_chain,
                    oreq.destination_chain,
                );
                let info = (BridgedTokenInfo {
                    original_chain: oreq.source_chain,
                    original_token_id: oreq.token_id,
                    destination_chain: oreq.destination_chain,
                    destination_token_id: oreq.token_id,
                    bridged_at: timestamp,
                    status: BridgingStatus::InTransit,
                });
                &&& final(self).bridge_requests@ == old(self).bridge_requests@.update(
                    request_id - 1,
                    (MultisigBridgeRequest { status: BridgeOperationStatus::Completed, ..oreq }),
                )
                &&& final(self).verified_hashes@ == old(self).verified_hashes@.push(
                    (crate::bridge::HashEntry { hash: h, consumed: false }),
                )
                &&& final(self).hash_mintable(h)
                &&& !old(self).hash_registered(h)
                &&& final(self).has_bridged(oreq.destination_chain, oreq.token_id)
                &&& final(self).bridged_info_at(oreq.destination_chain, oreq.token_id) == info
                &&& forall|c: ChainId, t: TokenId|
                    !(c == oreq.destination_chain && t == oreq.token_id)
                        ==> #[trigger] final(self).has_bridged(c, t) == old(self).has_bridged(c, t)
                &&& forall|c: ChainId, t: TokenId|
                    !(c == oreq.destination_chain && t == oreq.token_id) && old(self).has_bridged(
                        c,
                        t,
                    ) ==> #[trigger] final(self).bridged_info_at(c, t)
                        == old(self).bridged_info_at(c, t)
                &&& final(self).spec_history_of(oreq.sender) == old(self).spec_history_of(
                    oreq.sender,
                ).push(
                    (BridgeTransaction {
                        transaction_id: old(self).bridge_requests@.len() as u64,
                        token_id: oreq.token_id,
                        source_chain: oreq.source_chain,
                        destination_chain: oreq.destination_chain,
                        sender: oreq.sender,
                        recipient: oreq.recipient,
                        transaction_hash: h,
                        timestamp,
                        gas_used: Self::spec_execution_gas(oreq) as u64,
                        status: BridgeOperationStatus::InTransit,
                        metadata: final(self).spec_history_of(oreq.sender).last().metadata,
                    }),
                )
                &&& final(self).spec_history_of(oreq.sender).last().metadata == oreq.metadata
                &&& forall|a: AccountId|
                    a != oreq.sender ==> #[trigger] final(self).spec_history_of(a)
                        == old(self).spec_history_of(a)
            },
            final(self).admin == old(self).admin,
            final(self).shares == old(self).shares,
            final(self).tokens == old(self).tokens,
            final(self).balances == old(self).balances,
            final(self).owner_token_count == old(self).owner_token_count,
            final(self).operator_approvals == old(self).operator_approvals,
            final(self).total_supply == old(self).total_supply,
            final(self).bridge_config == old(self).bridge_config,
            final(self).bridge_operators == old(self).bridge_operators,
    {
        if !self.is_bridge_operator(caller) {
            return Err(Error::Unauthorized);
        }
        if !(request_id >= 1 && request_id <= self.bridge_requests.len() as u64) {
            return Err(Error::InvalidRequest);
        }
        let idx = self.request_index(request_id);
        if !(self.bridge_requests[idx].status == BridgeOperationStatus::Locked) {
            return Err(Error::InvalidRequest);
        }
        if self.bridge_requests[idx].signatures.len()
            < self.bridge_requests[idx].required_signatures as usize {
            return Err(Error::InsufficientSignatures);
        }
        let token_id = self.bridge_requests[idx].token_id;
        let source_chain = self.bridge_requests[idx].source_chain;
        let destination_chain = self.bridge_requests[idx].destination_chain;
        let sender = self.bridge_requests[idx].sender;
        let recipient = self.bridge_requests[idx].recipient;
        let required = self.bridge_requests[idx].required_signatures;
        let transaction_hash = crate::hash::derive_bridge_hash(
            request_id,
            token_id,
            source_chain,
            destination_chain,
            sender,
            recipient,
            timestamp,
        );
        // The audit record of this execution.
        let desc_len = self.bridge_requests[idx].metadata.legal_description.as_str().unicode_len();
        let gas_used: u64 = 100000 + (desc_len as u64) * 100 + (required as u64) * 5000;
        let metadata = self.bridge_requests[idx].metadata.clone();
        let transaction = BridgeTransaction {
            transaction_id: self.bridge_requests.len() as u64,
            token_id,
            source_chain,
            destination_chain,
            sender,
            recipient,
            transaction_hash,
            timestamp,
            gas_used,
            status: BridgeOperationStatus::InTransit,
            metadata,
        };
        // Complete the request.
        let mut rq = self.bridge_requests.remove(idx);
        rq.status = BridgeOperationStatus::Completed;
        self.bridge_requests.insert(idx, rq);
        proof {
            assert(self.bridge_requests@ =~= old(self).bridge_requests@.update(
                request_id - 1,
                self.bridge_requests@[request_id - 1],
            ));
            // The hash cannot be registered yet: a registered hash with this
            // leading word would mean the request was already completed.
            assert(!old(self).hash_registered(transaction_hash)) by {
                if old(self).hash_registered(transaction_hash) {
                    let k = choose|k: int|
                        0 <= k < old(self).verified_hashes@.len() && (#[trigger] old(self).verified_hashes@[k]).hash == transaction_hash;
                    assert(old(self).req(transaction_hash.w0).status
                        == BridgeOperationStatus::Completed);
                }
            }
        }
        // Record the hash in the registry.
        self.verified_hashes.push(
            crate::bridge::HashEntry { hash: transaction_hash, consumed: false },
        );
        // Append to the sender's audit history.
        let mut history = match self.bridge_transactions.remove(&sender) {
            Some(h) => h,
            None => Vec::new(),
        };
        history.push(transaction);
        self.bridge_transactions.insert(sender, history);
        // Write the bridged-token record as in transit.
        let info = BridgedTokenInfo {
            original_chain: source_chain,
            original_token_id: token_id,
            destination_chain,
            destination_token_id: token_id,
            bridged_at: timestamp,
            status: BridgingStatus::InTransit,
        };
        let found = self.bridged_find(destination_chain, token_id);
        match found {
            Some(i) => {
                let mut e = self.bridged_tokens.remove(i);
                e.info = info;
                self.bridged_tokens.insert(i, e);
                proof {
                    assert(self.bridged_tokens@ =~= old(self).bridged_tokens@.update(
                        i as int,
                        self.bridged_tokens@[i as int],
                    ));
                }
            },
            None => {
                self.bridged_tokens.push(BridgedEntry { chain: destination_chain, token_id, info });
            },
        }
        proof {
            let oreq = old(self).req(request_id);
            let h = crate::hash::spec_bridge_hash(
                request_id,
                oreq.token_id,
                oreq.source_chain,
                oreq.destination_chain,
            );
            assert(self.hash_mintable(h)) by {
                let k = self.verified_hashes@.len() - 1;
                assert(self.verified_hashes@[k].hash == h && !self.verified_hashes@[k].consumed);
            }
            // Registry soundness and uniqueness after the push.
            assert forall|k: int| 0 <= k < self.verified_hashes@.len() implies {
                let hh = (#[trigger] self.verified_hashes@[k]).hash;
                &&& self.has_request(hh.w0)
                &&& self.req(hh.w0).status == BridgeOperationStatus::Completed
                &&& hh == crate::hash::spec_bridge_hash(
                    hh.w0,
                    self.req(hh.w0).token_id,
                    self.req(hh.w0).source_chain,
                    self.req(hh.w0).destination_chain,
                )
            } by {
                if k < self.verified_hashes@.len() - 1 {
                    let hh = old(self).verified_hashes@[k].hash;
                    assert(old(self).has_request(hh.w0) && old(self).req(hh.w0).status
                        == BridgeOperationStatus::Completed);
                    assert(hh.w0 != request_id);
                }
            }
            assert forall|k1: int, k2: int|
                0 <= k1 < k2 < self.verified_hashes@.len() implies (
            #[trigger] self.verified_hashes@[k1]).hash != (
            #[trigger] self.verified_hashes@[k2]).hash by {
                if k2 == self.verified_hashes@.len() - 1 {
                    let hh = old(self).verified_hashes@[k1].hash;
                    assert(old(self).req(hh.w0).status == BridgeOperationStatus::Completed);
                    assert(hh.w0 != request_id);
                }
            }
            // Histories: only the sender's grows.
            assert(self.bridge_transactions@ =~= old(self).bridge_transactions@.insert(
                sender,
                self.bridge_transactions@[sender],
            ));
            assert(self.spec_history_of(sender) =~= old(self).spec_history_of(sender).push(
                self.spec_history_of(sender).last(),
            ));
            // The bridged-token record now carries the new info.
            if found is Some {
                self.lemma_bridged_at(destination_chain, token_id, found->Some_0 as int);
            } else {
                self.lemma_bridged_at(
                    destination_chain,
                    token_id,
                    self.bridged_tokens@.len() - 1,
                );
            }
            assert forall|c: ChainId, t: TokenId|
                !(c == destination_chain && t == token_id) implies #[trigger] self.has_bridged(
                c,
                t,
            ) == old(self).has_bridged(c, t) by {
                if old(self).has_bridged(c, t) {
                    let j = old(self).bridged_index(c, t);
                    assert(self.bridged_tokens@[j].chain == c && self.bridged_tokens@[j].token_id
                        == t);
                }
                if self.has_bridged(c, t) {
                    let j = self.bridged_index(c, t);
                    assert(old(self).bridged_tokens@[j].chain == c
                        && old(self).bridged_tokens@[j].token_id == t);
                }
            }
            assert forall|c: ChainId, t: TokenId|
                !(c == destination_chain && t == token_id) && old(self).has_bridged(c, t) implies
                #[trigger] self.bridged_info_at(c, t) == old(self).bridged_info_at(c, t) by {
                let j = old(self).bridged_index(c, t);
                self.lemma_bridged_at(c, t, j);
                old(self).lemma_bridged_at(c, t, j);
            }
            // Invariants over the completed request.
            assert forall|i: int|
                0 <= i < self.bridge_requests@.len() && (#[trigger] self.bridge_requests@[i]).status
                    == BridgeOperationStatus::Locked implies self.spec_owner_of(
                self.bridge_requests@[i].token_id,
            ) == Some(SENTINEL) by {
                assert(old(self).bridge_requests@[i].status == BridgeOperationStatus::Locked);
                assert(old(self).spec_owner_of(self.bridge_requests@[i].token_id) == Some(
                    SENTINEL,
                ));
            }
        }
        Ok(())
    }

    /// The outcome `receive_bridged_token` owes: operators only, and the
    /// presented hash must be registered and not yet consumed — the sole
    /// replay guard. On success the id of the freshly minted token is
    /// returned.
    pub open spec fn receive_outcome(
        s: PropertyToken,
        caller: AccountId,
        transaction_hash: crate::hash::TxHash,
    ) -> Result<TokenId, Error> {
        if !s.spec_is_operator(caller) {
            Err(Error::Unauthorized)
        } else if !s.hash_mintable(transaction_hash) {
            Err(Error::InvalidRequest)
        } else {
            Ok((s.tokens@.len() + 1) as TokenId)
        }
    }

    /// Accepts a bridged token on the destination ledger: checks the hash
    /// against the verified-hash registry, consumes it so it can never mint
    /// again, mints a fresh token for the recipient with the carried
    /// metadata, and completes the bridged-token record. A failed call
    /// leaves the state as it was.
    pub fn receive_bridged_token(
        &mut self,
        caller: AccountId,
        timestamp: u64,
        source_chain: ChainId,
        original_token_id: TokenId,
        recipient: AccountId,
        metadata: crate::types::PropertyMetadata,
        transaction_hash: crate::hash::TxHash,
    ) -> (r: Result<TokenId, Error>)
        requires
            old(self).wf(),
            Self::receive_outcome(*old(self), caller, transaction_hash) is Ok ==> old(
                self,
            ).tokens@.len() < u64::MAX && old(self).spec_owner_count(recipient) < u32::MAX && old(
                self,
            ).total_supply < u64::MAX,
        ensures
            final(self).wf(),
            r == Self::receive_outcome(*old(self), caller, transaction_hash),
            r is Err ==> *final(self) == *old(self),
            r is Ok ==> {
                let id = (old(self).tokens@.len() + 1) as TokenId;
                let t = final(self).token_at(id);
                &&& final(self).tokens@.len() == old(self).tokens@.len() + 1
                &&& forall|t2: TokenId|
                    old(self).has_token(t2) ==> final(self).token_at(t2) == old(self).token_at(t2)
                &&& t.owner == Some(recipient)
                &&& t.approval is None
                &&& t.property.id == id
                &&& t.property.owner == recipient
                &&& t.property.metadata == metadata
                &&& t.property.registered_at == timestamp
                &&& t.compliance.verified
                &&& t.compliance.verifier == caller
                &&& t.compliance.verification_date == timestamp
                &&& t.documents@.len() == 0
                &&& t.history@.len() == 1
                &&& t.history@[0].from == SENTINEL
                &&& t.history@[0].to == recipient
                &&& t.history@[0].transaction_hash == crate::token::spec_mint_record_hash(
                    recipient,
                    id,
                )
                &&& final(self).spec_balance(recipient, id) == 1
                &&& final(self).balances@ == old(self).balances@.insert(
                    crate::bridge::spec_key(recipient, id),
                    1u128,
                )
                &&& final(self).spec_owner_count(recipient)
                    == old(self).spec_owner_count(recipient) + 1
                &&& final(self).total_supply == old(self).total_supply + 1
                // The hash is consumed: it will never mint again.
                &&& !final(self).hash_mintable(transaction_hash)
                &&& final(self).hash_registered(transaction_hash)
                &&& forall|h2: crate::hash::TxHash|
                    h2 != transaction_hash ==> #[trigger] final(self).hash_mintable(h2)
                        == old(self).hash_mintable(h2)
                &&& forall|h2: crate::hash::TxHash|
                    #[trigger] final(self).hash_registered(h2) == old(self).hash_registered(h2)
                // The bridged-token record, if present, turns Completed and
                // learns the minted id.
                &&& final(self).has_bridged(source_chain, original_token_id)
                    == old(self).has_bridged(source_chain, original_token_id)
                &&& old(self).has_bridged(source_chain, original_token_id)
                    ==> final(self).bridged_info_at(source_chain, original_token_id) == (
                crate::types::BridgedTokenInfo {
                    destination_token_id: id,
                    status: BridgingStatus::Completed,
                    ..old(self).bridged_info_at(source_chain, original_token_id)
                })
                &&& forall|c: ChainId, t2: TokenId|
                    !(c == source_chain && t2 == original_token_id)
                        ==> #[trigger] final(self).has_bridged(c, t2) == old(self).has_bridged(
                        c,
                        t2,
                    )
                &&& forall|c: ChainId, t2: TokenId|
                    !(c == source_chain && t2 == original_token_id) && old(self).has_bridged(c, t2)
                        ==> #[trigger] final(self).bridged_info_at(c, t2)
                        == old(self).bridged_info_at(c, t2)
            },
            final(self).admin == old(self).admin,
            final(self).shares == old(self).shares,
            final(self).operator_approvals == old(self).operator_approvals,
            final(self).bridge_config == old(self).bridge_config,
            final(self).bridge_operators == old(self).bridge_operators,
            final(self).bridge_requests == old(self).bridge_requests,
            final(self).bridge_transactions == old(self).bridge_transactions,
    {
        if !self.is_bridge_operator(caller) {
            return Err(Error::Unauthorized);
        }
        // Find the presented hash among the unconsumed registry entries.
        let mut found: Option<usize> = None;
        let mut i: usize = 0;
        while i < self.verified_hashes.len()
            invariant
                0 <= i <= self.verified_hashes@.len(),
                found is None ==> forall|j: int|
                    0 <= j < i ==> !((#[trigger] self.verified_hashes@[j]).hash == transaction_hash
                        && !self.verified_hashes@[j].consumed),
                found matches Some(k) ==> k < i && self.verified_hashes@[k as int].hash
                    == transaction_hash && !self.verified_hashes@[k as int].consumed,
            decreases self.verified_hashes@.len() - i,
        {
            if found.is_none() && self.verified_hashes[i].hash == transaction_hash
                && !self.verified_hashes[i].consumed {
                found = Some(i);
            }
            i = i + 1;
        }
        let k = match found {
            None => {
                return Err(Error::InvalidRequest);
            },
            Some(k) => k,
        };
        // Consume the hash.
        let mut entry = self.verified_hashes.remove(k);
        entry.consumed = true;
        self.verified_hashes.insert(k, entry);
        proof {
            assert(self.verified_hashes@ =~= old(self).verified_hashes@.update(
                k as int,
                self.verified_hashes@[k as int],
            ));
        }
        // Mint the fresh token for the recipient.
        let token_id: TokenId = self.tokens.len() as u64 + 1;
        let property = crate::types::PropertyInfo {
            id: token_id,
            owner: recipient,
            metadata,
            registered_at: timestamp,
        };
        let compliance = crate::types::ComplianceInfo {
            verified: true,
            verification_date: timestamp,
            verifier: caller,
            compliance_type: String::from_str("Bridge"),
        };
        let mut history: Vec<crate::types::OwnershipTransfer> = Vec::new();
        history.push(
            crate::types::OwnershipTransfer {
                from: SENTINEL,
                to: recipient,
                timestamp,
                transaction_hash: crate::hash::TxHash { w0: recipient, w1: token_id, w2: 0, w3: 0 },
            },
        );
        self.tokens.push(
            crate::bridge::TokenRecord {
                owner: Some(recipient),
                approval: None,
                property,
                compliance,
                documents: Vec::new(),
                history,
            },
        );
        let key = crate::bridge::pack_key(recipient, token_id);
        self.balances.insert(key, 1);
        let count = self.balance_of(recipient);
        self.owner_token_count.insert(recipient, count + 1);
        self.total_supply = self.total_supply + 1;
        // Complete the bridged-token record, when one exists.
        let found_bridged = self.bridged_find(source_chain, original_token_id);
        match found_bridged {
            Some(bi) => {
                let mut e = self.bridged_tokens.remove(bi);
                e.info.status = BridgingStatus::Completed;
                e.info.destination_token_id = token_id;
                self.bridged_tokens.insert(bi, e);
                proof {
                    assert(self.bridged_tokens@ =~= old(self).bridged_tokens@.update(
                        bi as int,
                        self.bridged_tokens@[bi as int],
                    ));
                }
            },
            None => {},
        }
        proof {
            // The consumed entry blocks every further mint of this hash.
            assert(!self.hash_mintable(transaction_hash)) by {
                if self.hash_mintable(transaction_hash) {
                    let j = choose|j: int|
                        0 <= j < self.verified_hashes@.len() && (
                        #[trigger] self.verified_hashes@[j]).hash == transaction_hash
                            && !self.verified_hashes@[j].consumed;
                    assert(j != k as int);
                    assert(old(self).verified_hashes@[j].hash == old(self).verified_hashes@[k as int].hash);
                    assert(old(self).registry_unique());
                }
            }
            assert(self.hash_registered(transaction_hash)) by {
                assert(self.verified_hashes@[k as int].hash == transaction_hash);
            }
            assert forall|h2: crate::hash::TxHash|
                h2 != transaction_hash implies #[trigger] self.hash_mintable(h2) == old(self).hash_mintable(h2) by {
                if old(self).hash_mintable(h2) {
                    let j = choose|j: int|
                        0 <= j < old(self).verified_hashes@.len() && (#[trigger] old(self).verified_hashes@[j]).hash == h2 && !old(self).verified_hashes@[j].consumed;
                    assert(j != k as int);
                    assert(self.verified_hashes@[j].hash == h2 && !self.verified_hashes@[j].consumed);
                }
                if self.hash_mintable(h2) {
                    let j = choose|j: int|
                        0 <= j < self.verified_hashes@.len() && (
                        #[trigger] self.verified_hashes@[j]).hash == h2
                            && !self.verified_hashes@[j].consumed;
                    assert(j != k as int);
                    assert(old(self).verified_hashes@[j].hash == h2 && !old(self).verified_hashes@[j].consumed);
                }
            }
            assert forall|h2: crate::hash::TxHash|
                #[trigger] self.hash_registered(h2) == old(self).hash_registered(h2) by {
                if old(self).hash_registered(h2) {
                    let j = choose|j: int|
                        0 <= j < old(self).verified_hashes@.len() && (#[trigger] old(self).verified_hashes@[j]).hash == h2;
                    assert(self.verified_hashes@[j].hash == h2);
                }
                if self.hash_registered(h2) {
                    let j = choose|j: int|
                        0 <= j < self.verified_hashes@.len() && (
                        #[trigger] self.verified_hashes@[j]).hash == h2;
                    assert(old(self).verified_hashes@[j].hash == h2);
                }
            }
            // Registry soundness: the flagged entry keeps its hash, and the
            // request ledger did not move.
            assert forall|j: int| 0 <= j < self.verified_hashes@.len() implies {
                let hh = (#[trigger] self.verified_hashes@[j]).hash;
                &&& self.has_request(hh.w0)
                &&& self.req(hh.w0).status == BridgeOperationStatus::Completed
                &&& hh == crate::hash::spec_bridge_hash(
                    hh.w0,
                    self.req(hh.w0).token_id,
                    self.req(hh.w0).source_chain,
                    self.req(hh.w0).destination_chain,
                )
            } by {
                assert(self.verified_hashes@[j].hash == old(self).verified_hashes@[j].hash);
                assert(old(self).registry_sound());
            }
            // Bridged-token records away from the touched key are untouched.
            if found_bridged is Some {
                self.lemma_bridged_at(source_chain, original_token_id, found_bridged->Some_0 as int);
                old(self).lemma_bridged_at(
                    source_chain,
                    original_token_id,
                    found_bridged->Some_0 as int,
                );
            }
            assert forall|c: ChainId, t2: TokenId|
                !(c == source_chain && t2 == original_token_id) implies #[trigger] self.has_bridged(
                c,
                t2,
            ) == old(self).has_bridged(c, t2) by {
                if old(self).has_bridged(c, t2) {
                    let j = old(self).bridged_index(c, t2);
                    assert(self.bridged_tokens@[j].chain == c && self.bridged_tokens@[j].token_id
                        == t2);
                }
                if self.has_bridged(c, t2) {
                    let j = self.bridged_index(c, t2);
                    assert(old(self).bridged_tokens@[j].chain == c
                        && old(self).bridged_tokens@[j].token_id == t2);
                }
            }
            assert forall|c: ChainId, t2: TokenId|
                !(c == source_chain && t2 == original_token_id) && old(self).has_bridged(c, t2)
                implies #[trigger] self.bridged_info_at(c, t2) == old(self).bridged_info_at(
                c,
                t2,
            ) by {
                let j = old(self).bridged_index(c, t2);
                self.lemma_bridged_at(c, t2, j);
                old(self).lemma_bridged_at(c, t2, j);
            }
            // The locked-token invariant survives the mint.
            assert forall|i2: int|
                0 <= i2 < self.bridge_requests@.len() && (
                #[trigger] self.bridge_requests@[i2]).status == BridgeOperationStatus::Locked
                implies self.spec_owner_of(self.bridge_requests@[i2].token_id) == Some(
                SENTINEL,
            ) by {
                assert(old(self).spec_owner_of(self.bridge_requests@[i2].token_id) == Some(
                    SENTINEL,
                ));
            }
        }
        Ok(token_id)
    }

    /// The outcome `burn_bridged_token` owes: only the holder may burn, the
    /// token must have a bridged record on the named ledger, and that record
    /// must be `Completed`.
    pub open spec fn burn_outcome(
        s: PropertyToken,
        caller: AccountId,
        token_id: TokenId,
        destination_chain: ChainId,
    ) -> Result<(), Error> {
        if s.spec_owner_of(token_id) is None {
            Err(Error::TokenNotFound)
        } else if s.spec_owner_of(token_id) != Some(caller) || caller == SENTINEL {
            Err(Error::Unauthorized)
        } else if !s.has_bridged(destination_chain, token_id) {
            Err(Error::BridgeNotSupported)
        } else if s.bridged_info_at(destination_chain, token_id).status
            != BridgingStatus::Completed {
            Err(Error::InvalidRequest)
        } else if s.spec_owner_count(caller) == 0 {
            Err(Error::TokenNotFound)
        } else {
            Ok(())
        }
    }

    /// Burns a bridged token when it returns to its origin ledger: the local
    /// record loses its holder and balance, and the bridged-token record
    /// turns `Locked`, making the asset eligible to bridge back. A failed
    /// call leaves the state as it was.
    pub fn burn_bridged_token(
        &mut self,
        caller: AccountId,
        token_id: TokenId,
        destination_chain: ChainId,
        recipient: AccountId,
    ) -> (r: Result<(), Error>)
        requires
            old(self).wf(),
            Self::burn_outcome(*old(self), caller, token_id, destination_chain) is Ok ==> old(self).total_supply >= 1,
        ensures
            final(self).wf(),
            r == Self::burn_outcome(*old(self), caller, token_id, destination_chain),
            r is Err ==> *final(self) == *old(self),
            r is Ok ==> {
                &&& final(self).tokens@ == old(self).tokens@.update(
                    token_id - 1,
                    (crate::bridge::TokenRecord { owner: None, ..old(self).token_at(token_id) }),
                )
                &&& final(self).spec_owner_of(token_id) is None
                &&& final(self).balances@ == old(self).balances@.insert(
                    crate::bridge::spec_key(caller, token_id),
                    0u128,
                )
                &&& final(self).spec_owner_count(caller) == old(self).spec_owner_count(caller) - 1
                &&& final(self).total_supply == old(self).total_supply - 1
                &&& final(self).has_bridged(destination_chain, token_id)
                &&& final(self).bridged_info_at(destination_chain, token_id) == (
                crate::types::BridgedTokenInfo {
                    status: BridgingStatus::Locked,
                    ..old(self).bridged_info_at(destination_chain, token_id)
                })
                &&& forall|c: ChainId, t2: TokenId|
                    !(c == destination_chain && t2 == token_id)
                        ==> #[trigger] final(self).has_bridged(c, t2) == old(self).has_bridged(
                        c,
                        t2,
                    )
                &&& forall|c: ChainId, t2: TokenId|
                    !(c == destination_chain && t2 == token_id) && old(self).has_bridged(c, t2)
                        ==> #[trigger] final(self).bridged_info_at(c, t2)
                        == old(self).bridged_info_at(c, t2)
            },
            final(self).admin == old(self).admin,
            final(self).shares == old(self).shares,
            final(self).operator_approvals == old(self).operator_approvals,
            final(self).bridge_config == old(self).bridge_config,
            final(self).bridge_operators == old(self).bridge_operators,
            final(self).bridge_requests == old(self).bridge_requests,
            final(self).verified_hashes == old(self).verified_hashes,
            final(self).bridge_transactions == old(self).bridge_transactions,
            forall|a: AccountId|
                a != caller ==> final(self).spec_owner_count(a) == old(self).spec_owner_count(a),
    {
        let owner = match self.owner_of(token_id) {
            None => {
                return Err(Error::TokenNotFound);
            },
            Some(o) => o,
        };
        if owner != caller || caller == SENTINEL {
            return Err(Error::Unauthorized);
        }
        let found = match self.bridged_find(destination_chain, token_id) {
            None => {
                return Err(Error::BridgeNotSupported);
            },
            Some(i) => i,
        };
        proof {
            self.lemma_bridged_at(destination_chain, token_id, found as int);
        }
        if !(self.bridged_tokens[found].info.status == BridgingStatus::Completed) {
            return Err(Error::InvalidRequest);
        }
        let count = self.balance_of(caller);
        if count == 0 {
            return Err(Error::TokenNotFound);
        }
        // Burn the local record.
        self.owner_token_count.insert(caller, count - 1);
        let tidx = self.token_index(token_id);
        let mut rec = self.tokens.remove(tidx);
        rec.owner = None;
        self.tokens.insert(tidx, rec);
        proof {
            assert(self.tokens@ =~= old(self).tokens@.update(
                token_id - 1,
                self.tokens@[token_id - 1],
            ));
        }
        let key = crate::bridge::pack_key(caller, token_id);
        self.balances.insert(key, 0);
        self.total_supply = self.total_supply - 1;
        // The bridged record turns Locked: eligible to bridge back.
        let mut e = self.bridged_tokens.remove(found);
        e.info.status = BridgingStatus::Locked;
        self.bridged_tokens.insert(found, e);
        proof {
            assert(self.bridged_tokens@ =~= old(self).bridged_tokens@.update(
                found as int,
                self.bridged_tokens@[found as int],
            ));
            self.lemma_bridged_at(destination_chain, token_id, found as int);
            old(self).lemma_bridged_at(destination_chain, token_id, found as int);
            assert forall|c: ChainId, t2: TokenId|
                !(c == destination_chain && t2 == token_id) implies #[trigger] self.has_bridged(
                c,
                t2,
            ) == old(self).has_bridged(c, t2) by {
                if old(self).has_bridged(c, t2) {
                    let j = old(self).bridged_index(c, t2);
                    assert(self.bridged_tokens@[j].chain == c && self.bridged_tokens@[j].token_id
                        == t2);
                }
                if self.has_bridged(c, t2) {
                    let j = self.bridged_index(c, t2);
                    assert(old(self).bridged_tokens@[j].chain == c
                        && old(self).bridged_tokens@[j].token_id == t2);
                }
            }
            assert forall|c: ChainId, t2: TokenId|
                !(c == destination_chain && t2 == token_id) && old(self).has_bridged(c, t2) implies
                #[trigger] self.bridged_info_at(c, t2) == old(self).bridged_info_at(c, t2) by {
                let j = old(self).bridged_index(c, t2);
                self.lemma_bridged_at(c, t2, j);
                old(self).lemma_bridged_at(c, t2, j);
            }
            // A token held by a real account is not locked by any request.
            assert forall|i: int|
                0 <= i < self.bridge_requests@.len() && (#[trigger] self.bridge_requests@[i]).status
                    == BridgeOperationStatus::Locked implies self.spec_owner_of(
                self.bridge_requests@[i].token_id,
            ) == Some(SENTINEL) by {
                assert(old(self).spec_owner_of(self.bridge_requests@[i].token_id) == Some(
                    SENTINEL,
                ));
                assert(self.bridge_requests@[i].token_id != token_id);
            }
        }
        Ok(())
    }

    /// True when a recovery with this action restores the frozen token to
    /// its original sender: the token must still be held by the sentinel,
    /// and no other in-flight request may hold it locked.
    pub open spec fn recover_restores(
        s: PropertyToken,
        request_id: u64,
        action: crate::types::RecoveryAction,
    ) -> bool {
        &&& (action == crate::types::RecoveryAction::UnlockToken || action
            == crate::types::RecoveryAction::CancelBridge)
        &&& s.spec_owner_of(s.req(request_id).token_id) == Some(SENTINEL)
        &&& !s.has_locked_for(s.req(request_id).token_id)
    }

    /// The outcome `recover_failed_bridge` owes: administrator only, on an
    /// existing request in a terminal failure state (`Failed` or `Expired`).
    /// A retry may not reopen the request while another non-terminal request
    /// exists for the same token.
    pub open spec fn recover_outcome(
        s: PropertyToken,
        caller: AccountId,
        request_id: u64,
        action: crate::types::RecoveryAction,
    ) -> Result<(), Error> {
        if caller != s.admin {
            Err(Error::Unauthorized)
        } else if !s.has_request(request_id) {
            Err(Error::InvalidRequest)
        } else if s.req(request_id).status != BridgeOperationStatus::Failed && s.req(
            request_id,
        ).status != BridgeOperationStatus::Expired {
            Err(Error::InvalidRequest)
        } else if action == crate::types::RecoveryAction::RetryBridge && s.has_pending_for(
            s.req(request_id).token_id,
        ) {
            Err(Error::DuplicateBridgeRequest)
        } else {
            Ok(())
        }
    }

    /// Recovers from a failed or expired bridge request. `UnlockToken`
    /// restores the original sender as holder with balance one, if the token
    /// is still frozen and no other request holds it; `RefundGas` changes no
    /// token state; `RetryBridge` clears the collected signatures and resets
    /// the request to `Pending`; `CancelBridge` restores the token the same
    /// way and leaves the request permanently `Failed`. A failed call leaves
    /// the state as it was.
    pub fn recover_failed_bridge(
        &mut self,
        caller: AccountId,
        request_id: u64,
        recovery_action: crate::types::RecoveryAction,
    ) -> (r: Result<(), Error>)
        requires
            old(self).wf(),
            Self::recover_outcome(*old(self), caller, request_id, recovery_action) is Ok
                && Self::recover_restores(*old(self), request_id, recovery_action) ==> old(self).spec_owner_count(old(self).req(request_id).sender) < u32::MAX,
        ensures
            final(self).wf(),
            r == Self::recover_outcome(*old(self), caller, request_id, recovery_action),
            r is Err ==> *final(self) == *old(self),
            r is Ok ==> {
                let oreq = old(self).req(request_id);
                let t = oreq.token_id;
                // What happens to the request itself.
                &&& recovery_action == crate::types::RecoveryAction::RetryBridge ==> {
                    &&& final(self).bridge_requests@ == old(self).bridge_requests@.update(
                        request_id - 1,
                        final(self).req(request_id),
                    )
                    &&& final(self).req(request_id) == (MultisigBridgeRequest {
                        status: BridgeOperationStatus::Pending,
                        signatures: final(self).req(request_id).signatures,
                        ..oreq
                    })
                    &&& final(self).req(request_id).signatures@ == Seq::<AccountId>::empty()
                }
                &&& recovery_action == crate::types::RecoveryAction::CancelBridge ==> final(self).bridge_requests@ == old(self).bridge_requests@.update(
                    request_id - 1,
                    (MultisigBridgeRequest { status: BridgeOperationStatus::Failed, ..oreq }),
                )
                &&& (recovery_action == crate::types::RecoveryAction::UnlockToken
                    || recovery_action == crate::types::RecoveryAction::RefundGas) ==> final(self).bridge_requests == old(self).bridge_requests
                // What happens to the token.
                &&& Self::recover_restores(*old(self), request_id, recovery_action) ==> {
                    &&& final(self).spec_owner_of(t) == Some(oreq.sender)
                    &&& final(self).tokens@ == old(self).tokens@.update(
                        t - 1,
                        (crate::bridge::TokenRecord {
                            owner: Some(oreq.sender),
                            ..old(self).token_at(t)
                        }),
                    )
                    &&& final(self).spec_balance(oreq.sender, t) == 1
                    &&& final(self).balances@ == old(self).balances@.insert(
                        crate::bridge::spec_key(oreq.sender, t),
                        1u128,
                    )
                    &&& final(self).spec_owner_count(oreq.sender) == old(self).spec_owner_count(
                        oreq.sender,
                    ) + 1
                }
                &&& !Self::recover_restores(*old(self), request_id, recovery_action) ==> {
                    &&& final(self).tokens == old(self).tokens
                    &&& final(self).balances == old(self).balances
                    &&& final(self).owner_token_count == old(self).owner_token_count
                }
            },
            final(self).admin == old(self).admin,
            final(self).shares == old(self).shares,
            final(self).operator_approvals == old(self).operator_approvals,
            final(self).total_supply == old(self).total_supply,
            final(self).bridge_config == old(self).bridge_config,
            final(self).bridge_operators == old(self).bridge_operators,
            final(self).verified_hashes == old(self).verified_hashes,
            final(self).bridged_tokens == old(self).bridged_tokens,
            final(self).bridge_transactions == old(self).bridge_transactions,
    {
        if caller != self.admin {
            return Err(Error::Unauthorized);
        }
        if !(request_id >= 1 && request_id <= self.bridge_requests.len() as u64) {
            return Err(Error::InvalidRequest);
        }
        let idx = self.request_index(request_id);
        let status = self.bridge_requests[idx].status;
        if status != BridgeOperationStatus::Failed && status != BridgeOperationStatus::Expired {
            return Err(Error::InvalidRequest);
        }
        let token_id = self.bridge_requests[idx].token_id;
        let sender = self.bridge_requests[idx].sender;
        match recovery_action {
            crate::types::RecoveryAction::RetryBridge => {
                if self.has_pending_bridge_request(token_id) {
                    return Err(Error::DuplicateBridgeRequest);
                }
                let mut rq = self.bridge_requests.remove(idx);
                rq.status = BridgeOperationStatus::Pending;
                rq.signatures = Vec::new();
                self.bridge_requests.insert(idx, rq);
                proof {
                    assert(self.bridge_requests@ =~= old(self).bridge_requests@.update(
                        request_id - 1,
                        self.bridge_requests@[request_id - 1],
                    ));
                    assert forall|i: int, j: int|
                        0 <= i < j < self.bridge_requests@.len() && Self::is_active_status(
                            (#[trigger] self.bridge_requests@[i]).status,
                        ) && Self::is_active_status((#[trigger] self.bridge_requests@[j]).status)
                        implies self.bridge_requests@[i].token_id
                        != self.bridge_requests@[j].token_id by {
                        assert(old(self).single_active_per_token());
                        if i == request_id - 1 || j == request_id - 1 {
                            assert(!old(self).has_pending_for(token_id));
                        }
                    }
                    assert forall|i: int|
                        0 <= i < self.bridge_requests@.len() && (
                        #[trigger] self.bridge_requests@[i]).status
                            == BridgeOperationStatus::Locked implies self.spec_owner_of(
                        self.bridge_requests@[i].token_id,
                    ) == Some(SENTINEL) by {
                        assert(old(self).bridge_requests@[i] == self.bridge_requests@[i]);
                        assert(old(self).spec_owner_of(self.bridge_requests@[i].token_id) == Some(
                            SENTINEL,
                        ));
                    }
                    assert forall|k: int| 0 <= k < self.verified_hashes@.len() implies {
                        let hh = (#[trigger] self.verified_hashes@[k]).hash;
                        &&& self.has_request(hh.w0)
                        &&& self.req(hh.w0).status == BridgeOperationStatus::Completed
                        &&& hh == crate::hash::spec_bridge_hash(
                            hh.w0,
                            self.req(hh.w0).token_id,
                            self.req(hh.w0).source_chain,
                            self.req(hh.w0).destination_chain,
                        )
                    } by {
                        assert(old(self).registry_sound());
                        let hh = (self.verified_hashes@[k]).hash;
                        assert(old(self).req(hh.w0).status == BridgeOperationStatus::Completed);
                        assert(hh.w0 != request_id);
                    }
                }
                return Ok(());
            },
            crate::types::RecoveryAction::RefundGas => {
                return Ok(());
            },
            _ => {},
        }
        // UnlockToken and CancelBridge both restore the token when it is
        // still frozen and no other request holds it locked.
        let frozen = match self.owner_of(token_id) {
            Some(o) => o == SENTINEL,
            None => false,
        };
        let held_elsewhere = self.has_locked_bridge_request(token_id);
        if frozen && !held_elsewhere {
            let tidx = self.token_index(token_id);
            let mut rec = self.tokens.remove(tidx);
            rec.owner = Some(sender);
            self.tokens.insert(tidx, rec);
            proof {
                assert(self.tokens@ =~= old(self).tokens@.update(
                    token_id - 1,
                    self.tokens@[token_id - 1],
                ));
            }
            let key = crate::bridge::pack_key(sender, token_id);
            self.balances.insert(key, 1);
            let count = self.balance_of(sender);
            self.owner_token_count.insert(sender, count + 1);
        }
        if recovery_action == crate::types::RecoveryAction::CancelBridge {
            let mut rq = self.bridge_requests.remove(idx);
            rq.status = BridgeOperationStatus::Failed;
            self.bridge_requests.insert(idx, rq);
            proof {
                assert(self.bridge_requests@ =~= old(self).bridge_requests@.update(
                    request_id - 1,
                    self.bridge_requests@[request_id - 1],
                ));
            }
        }
        proof {
            assert forall|i: int|
                0 <= i < self.bridge_requests@.len() && (#[trigger] self.bridge_requests@[i]).status
                    == BridgeOperationStatus::Locked implies self.spec_owner_of(
                self.bridge_requests@[i].token_id,
            ) == Some(SENTINEL) by {
                assert(old(self).bridge_requests@[i].status == BridgeOperationStatus::Locked);
                assert(old(self).spec_owner_of(self.bridge_requests@[i].token_id) == Some(
                    SENTINEL,
                ));
                if frozen && !held_elsewhere {
                    assert(!old(self).has_locked_for(token_id));
                    assert(self.bridge_requests@[i].token_id != token_id);
                }
            }
            assert forall|k: int| 0 <= k < self.verified_hashes@.len() implies {
                let hh = (#[trigger] self.verified_hashes@[k]).hash;
                &&& self.has_request(hh.w0)
                &&& self.req(hh.w0).status == BridgeOperationStatus::Completed
                &&& hh == crate::hash::spec_bridge_hash(
                    hh.w0,
                    self.req(hh.w0).token_id,
                    self.req(hh.w0).source_chain,
                    self.req(hh.w0).destination_chain,
                )
            } by {
                assert(old(self).registry_sound());
                let hh = (self.verified_hashes@[k]).hash;
                assert(old(self).req(hh.w0).status == BridgeOperationStatus::Completed);
                assert(hh.w0 != request_id);
            }
        }
        Ok(())
    }

    /// Scans the request ledger for a request holding this token locked.
    fn has_locked_bridge_request(&self, token_id: TokenId) -> (r: bool)
        ensures
            r == self.has_locked_for(token_id),
    {
        let mut i: usize = 0;
        while i < self.bridge_requests.len()
            invariant
                0 <= i <= self.bridge_requests@.len(),
                forall|j: int|
                    0 <= j < i ==> !((#[trigger] self.bridge_requests@[j]).token_id == token_id
                        && self.bridge_requests@[j].status == BridgeOperationStatus::Locked),
            decreases self.bridge_requests@.len() - i,
        {
            if self.bridge_requests[i].token_id == token_id && self.bridge_requests[i].status
                == BridgeOperationStatus::Locked {
                return true;
            }
            i = i + 1;
        }
        false
    }
}

} // verus!
