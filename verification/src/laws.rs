use vstd::prelude::*;

use crate::account::AccountId;
use crate::account::SENTINEL;
use crate::bridge::PropertyToken;
use crate::types::BridgeOperationStatus;
use crate::types::ChainId;
use crate::types::Error;
use crate::types::TokenId;

verus! {

impl PropertyToken {
    /// For all tokens, at most one request with status `Pending` or `Locked`
    /// exists at any time: two distinct requests that are both non-terminal
    /// concern distinct tokens.
    pub proof fn law_single_active_request_per_token(self, i: u64, j: u64)
        requires
            self.wf(),
            self.has_request(i),
            self.has_request(j),
            i != j,
            Self::is_active_status(self.req(i).status),
            Self::is_active_status(self.req(j).status),
        ensures
            self.req(i).token_id != self.req(j).token_id,
    {
        assert(self.single_active_per_token());
        if i < j {
            assert(Self::is_active_status(self.bridge_requests@[i - 1].status) && Self::is_active_status(
                self.bridge_requests@[j - 1].status,
            ));
        } else {
            assert(Self::is_active_status(self.bridge_requests@[j - 1].status) && Self::is_active_status(
                self.bridge_requests@[i - 1].status,
            ));
        }
    }

    /// While a non-terminal request is outstanding for a token, a second
    /// `initiate_bridge_multisig` on that token fails; when every earlier
    /// check passes, it fails exactly with `DuplicateBridgeRequest`.
    pub proof fn law_duplicate_initiate_rejected(
        self,
        caller: AccountId,
        token_id: TokenId,
        destination_chain: ChainId,
        required_signatures: u8,
    )
        requires
            self.wf(),
            self.has_pending_for(token_id),
        ensures
            Self::initiate_outcome(self, caller, token_id, destination_chain, required_signatures)
                is Err,
            (self.spec_owner_of(token_id) == Some(caller) && caller != SENTINEL
                && !self.bridge_config.emergency_pause
                && self.bridge_config.supported_chains@.contains(destination_chain)
                && self.token_at(token_id).compliance.verified
                && self.bridge_config.min_signatures_required <= required_signatures
                && required_signatures <= self.bridge_config.max_signatures_required)
                ==> Self::initiate_outcome(
                self,
                caller,
                token_id,
                destination_chain,
                required_signatures,
            ) == Err::<u64, Error>(Error::DuplicateBridgeRequest),
    {
    }

    /// A request's signature list never repeats an operator.
    pub proof fn law_signatures_never_repeat(self, request_id: u64, i: int, j: int)
        requires
            self.wf(),
            self.has_request(request_id),
            0 <= i < j < self.req(request_id).signatures@.len(),
        ensures
            self.req(request_id).signatures@[i] != self.req(request_id).signatures@[j],
    {
        assert(self.signatures_unique());
        assert(Self::signatures_unique_in(self.bridge_requests@[request_id - 1]));
    }

    /// A second signature by the same operator fails with `AlreadySigned`,
    /// whatever the decision.
    pub proof fn law_second_signature_rejected(
        self,
        caller: AccountId,
        block_number: u64,
        request_id: u64,
        approve: bool,
    )
        requires
            self.wf(),
            self.spec_is_operator(caller),
            self.has_request(request_id),
            self.req(request_id).status == BridgeOperationStatus::Pending,
            !crate::protocol::spec_expired(self.req(request_id), block_number),
            self.req(request_id).signatures@.contains(caller),
        ensures
            Self::sign_outcome(self, caller, block_number, request_id, approve) == Err::<
                (),
                Error,
            >(Error::AlreadySigned),
    {
    }

    /// A single rejection vetoes the whole request: a rejecting signature on
    /// a pending or even already locked request the operator has not signed
    /// is accepted (and, by the contract of `sign_bridge_request`, leaves the
    /// request `Failed`), no matter how many approvals were already
    /// collected.
    pub proof fn law_rejection_vetoes(self, caller: AccountId, block_number: u64, request_id: u64)
        requires
            self.wf(),
            self.spec_is_operator(caller),
            self.has_request(request_id),
            Self::is_active_status(self.req(request_id).status),
            !(self.req(request_id).status == BridgeOperationStatus::Pending
                && crate::protocol::spec_expired(self.req(request_id), block_number)),
            !self.req(request_id).signatures@.contains(caller),
        ensures
            Self::sign_outcome(self, caller, block_number, request_id, false) is Ok,
    {
    }

    /// Once a request is `Locked`, its token is frozen: the holder is the
    /// sentinel, and any ordinary transfer attempt on the token fails,
    /// whoever makes it.
    pub proof fn law_locked_token_cannot_transfer(
        self,
        request_id: u64,
        caller: AccountId,
        from: AccountId,
        to: AccountId,
    )
        requires
            self.wf(),
            self.has_request(request_id),
            self.req(request_id).status == BridgeOperationStatus::Locked,
        ensures
            self.spec_owner_of(self.req(request_id).token_id) == Some(SENTINEL),
            Self::transfer_outcome(self, caller, from, to, self.req(request_id).token_id) is Err,
    {
        assert(self.locked_frozen());
        assert(self.spec_owner_of(self.req(request_id).token_id) == Some(SENTINEL));
    }

    /// Once a request is `Locked`, no approval can be granted on its token
    /// either: the sentinel holder authorizes nobody.
    pub proof fn law_locked_token_cannot_approve(self, request_id: u64, caller: AccountId)
        requires
            self.wf(),
            self.has_request(request_id),
            self.req(request_id).status == BridgeOperationStatus::Locked,
            caller != SENTINEL,
        ensures
            Self::approve_outcome(self, caller, self.req(request_id).token_id) is Err,
    {
        assert(self.locked_frozen());
        let t = self.req(request_id).token_id;
        assert(self.spec_owner_of(t) == Some(SENTINEL));
        assert(!(self.operator_approvals@.contains_key(crate::bridge::spec_key(SENTINEL, caller))
            && self.operator_approvals@[crate::bridge::spec_key(SENTINEL, caller)]));
    }

    /// A hash that is absent from the verified-hash registry, or already
    /// consumed by an earlier mint, is not accepted: `receive_bridged_token`
    /// fails, and for an operator it fails exactly with `InvalidRequest`.
    /// Together with the contract of `receive_bridged_token` — a successful
    /// mint leaves its hash consumed — no hash mints twice.
    pub proof fn law_no_double_mint(self, caller: AccountId, transaction_hash: crate::hash::TxHash)
        requires
            self.wf(),
            !self.hash_mintable(transaction_hash),
        ensures
            Self::receive_outcome(self, caller, transaction_hash) is Err,
            self.spec_is_operator(caller) ==> Self::receive_outcome(self, caller, transaction_hash)
                == Err::<TokenId, Error>(Error::InvalidRequest),
    {
    }

    /// Only `execute_bridge` ever registers a hash, and every registered
    /// hash names the completed request it came from: the request id is the
    /// hash's leading word, and the hash is derived from that request's own
    /// fields.
    pub proof fn law_registered_hash_names_completed_request(
        self,
        transaction_hash: crate::hash::TxHash,
    )
        requires
            self.wf(),
            self.hash_registered(transaction_hash),
        ensures
            self.has_request(transaction_hash.w0),
            self.req(transaction_hash.w0).status == BridgeOperationStatus::Completed,
            transaction_hash == crate::hash::spec_bridge_hash(
                transaction_hash.w0,
                self.req(transaction_hash.w0).token_id,
                self.req(transaction_hash.w0).source_chain,
                self.req(transaction_hash.w0).destination_chain,
            ),
    {
        assert(self.registry_sound());
        let k = choose|k: int|
            0 <= k < self.verified_hashes@.len() && (#[trigger] self.verified_hashes@[k]).hash
                == transaction_hash;
        assert(self.verified_hashes@[k].hash == transaction_hash);
    }
}

} // verus!
