use vstd::prelude::*;

use crate::account::AccountId;
use crate::account::SENTINEL;
use crate::bridge::PropertyToken;
use crate::bridge::TokenRecord;
use crate::bridge::pack_key;
use crate::bridge::spec_key;
use crate::hash::TxHash;
use crate::types::ComplianceInfo;
use crate::types::DocumentInfo;
use crate::types::Error;
use crate::types::OwnershipTransfer;
use crate::types::PropertyInfo;
use crate::types::PropertyMetadata;
use crate::types::TokenId;

verus! {

broadcast use vstd::std_specs::hash::group_hash_axioms;

/// The hash recorded in a token's history for a mint: the two identifying
/// words of the minting record, zero-padded to 32 bytes.
pub open spec fn spec_mint_record_hash(to: AccountId, token_id: TokenId) -> TxHash {
    TxHash { w0: to, w1: token_id, w2: 0, w3: 0 }
}

/// The hash recorded in a token's history for a transfer: the three
/// identifying words of the transfer record, zero-padded to 32 bytes.
pub open spec fn spec_transfer_record_hash(
    from: AccountId,
    to: AccountId,
    token_id: TokenId,
) -> TxHash {
    TxHash { w0: from, w1: to, w2: token_id, w3: 0 }
}

impl PropertyToken {
    /// How many tokens an account holds.
    pub open spec fn spec_owner_count(self, account: AccountId) -> u32 {
        if self.owner_token_count@.contains_key(account) {
            self.owner_token_count@[account]
        } else {
            0
        }
    }

    /// Returns the number of tokens an account holds.
    pub fn balance_of(&self, owner: AccountId) -> (r: u32)
        ensures
            r == self.spec_owner_count(owner),
    {
        match self.owner_token_count.get(&owner) {
            Some(c) => *c,
            None => 0,
        }
    }

    /// Returns the owner of a token, `None` for unminted or burned ids.
    pub fn owner_of(&self, token_id: TokenId) -> (r: Option<AccountId>)
        ensures
            r == self.spec_owner_of(token_id),
    {
        if token_id >= 1 && token_id <= self.tokens.len() as u64 {
            let idx = self.token_index(token_id);
            self.tokens[idx].owner
        } else {
            None
        }
    }

    /// Returns the transferable balance of an account on a token.
    pub fn share_balance_of(&self, owner: AccountId, token_id: TokenId) -> (r: u128)
        ensures
            r == self.spec_balance(owner, token_id),
    {
        match self.balances.get(&pack_key(owner, token_id)) {
            Some(b) => *b,
            None => 0,
        }
    }

    /// Returns the balances of paired accounts and tokens; a missing id pairs
    /// to zero.
    pub fn balance_of_batch(&self, accounts: Vec<AccountId>, ids: Vec<TokenId>) -> (r: Vec<u128>)
        ensures
            r@.len() == accounts@.len(),
            forall|i: int|
                0 <= i < accounts@.len() ==> r@[i] == if i < ids@.len() {
                    self.spec_balance(accounts@[i], ids@[i])
                } else {
                    0
                },
    {
        let mut out: Vec<u128> = Vec::new();
        let mut i: usize = 0;
        while i < accounts.len()
            invariant
                0 <= i <= accounts@.len(),
                out@.len() == i,
                forall|j: int|
                    0 <= j < i ==> out@[j] == if j < ids@.len() {
                        self.spec_balance(accounts@[j], ids@[j])
                    } else {
                        0
                    },
            decreases accounts@.len() - i,
        {
            if i < ids.len() {
                out.push(self.share_balance_of(accounts[i], ids[i]));
            } else {
                out.push(0);
            }
            i = i + 1;
        }
        out
    }

    /// Returns the account approved to transfer a token, if any.
    pub fn get_approved(&self, token_id: TokenId) -> (r: Option<AccountId>)
        ensures
            r == if self.has_token(token_id) {
                self.token_at(token_id).approval
            } else {
                None::<AccountId>
            },
    {
        if token_id >= 1 && token_id <= self.tokens.len() as u64 {
            let idx = self.token_index(token_id);
            self.tokens[idx].approval
        } else {
            None
        }
    }

    /// Returns whether `operator` may act for `owner` on all tokens.
    pub fn is_approved_for_all(&self, owner: AccountId, operator: AccountId) -> (r: bool)
        ensures
            r == self.spec_approved_for_all(owner, operator),
    {
        match self.operator_approvals.get(&pack_key(owner, operator)) {
            Some(b) => *b,
            None => false,
        }
    }

    /// Grants or revokes an operator for all of the caller's tokens. The
    /// sentinel is non-operable and may not grant approvals.
    pub fn set_approval_for_all(&mut self, caller: AccountId, operator: AccountId, approved: bool)
        -> (r: Result<(), Error>)
        requires
            old(self).wf(),
        ensures
            final(self).wf(),
            r == if caller == SENTINEL {
                Err::<(), Error>(Error::Unauthorized)
            } else {
                Ok::<(), Error>(())
            },
            caller == SENTINEL ==> *final(self) == *old(self),
            caller != SENTINEL ==> {
                &&& final(self).operator_approvals@ == old(self).operator_approvals@.insert(
                    spec_key(caller, operator),
                    approved,
                )
                &&& final(self).spec_approved_for_all(caller, operator) == approved
            },
            final(self).admin == old(self).admin,
            final(self).shares == old(self).shares,
            final(self).tokens == old(self).tokens,
            final(self).balances == old(self).balances,
            final(self).owner_token_count == old(self).owner_token_count,
            final(self).total_supply == old(self).total_supply,
            final(self).bridge_config == old(self).bridge_config,
            final(self).bridge_operators == old(self).bridge_operators,
            final(self).bridge_requests == old(self).bridge_requests,
            final(self).verified_hashes == old(self).verified_hashes,
            final(self).bridged_tokens == old(self).bridged_tokens,
            final(self).bridge_transactions == old(self).bridge_transactions,
    {
        if caller == SENTINEL {
            return Err(Error::Unauthorized);
        }
        let key = pack_key(caller, operator);
        self.operator_approvals.insert(key, approved);
        Ok(())
    }

    /// The vector index of a minted token.
    pub(crate) fn token_index(&self, token_id: TokenId) -> (idx: usize)
        requires
            self.has_token(token_id),
        ensures
            idx == token_id - 1,
            idx < self.tokens@.len(),
    {
        let n = self.tokens.len();
        proof {
            assert(token_id - 1 < self.tokens@.len());
            assert(self.tokens@.len() == n);
        }
        (token_id - 1) as usize
    }

    /// The outcome `register_property_with_token` owes: registration always
    /// succeeds and returns the next token id.
    pub open spec fn register_outcome(s: PropertyToken) -> Result<TokenId, Error> {
        Ok((s.tokens@.len() + 1) as TokenId)
    }

    /// Registers a property and mints its token for the caller. The new token
    /// starts unverified, with a single-entry history and a balance of one
    /// for the caller.
    pub fn register_property_with_token(
        &mut self,
        caller: AccountId,
        timestamp: u64,
        metadata: PropertyMetadata,
    ) -> (r: Result<TokenId, Error>)
        requires
            old(self).wf(),
            old(self).tokens@.len() < u64::MAX,
            old(self).spec_owner_count(caller) < u32::MAX,
            old(self).total_supply < u64::MAX,
        ensures
            final(self).wf(),
            r == Self::register_outcome(*old(self)),
            final(self).tokens@.len() == old(self).tokens@.len() + 1,
            ({
                let t = final(self).token_at((old(self).tokens@.len() + 1) as TokenId);
                &&& t.owner == Some(caller)
                &&& t.approval is None
                &&& t.property.id == old(self).tokens@.len() + 1
                &&& t.property.owner == caller
                &&& t.property.metadata == metadata
                &&& t.property.registered_at == timestamp
                &&& !t.compliance.verified
                &&& t.documents@.len() == 0
                &&& t.history@.len() == 1
                &&& t.history@[0].from == SENTINEL
                &&& t.history@[0].to == caller
                &&& t.history@[0].timestamp == timestamp
                &&& t.history@[0].transaction_hash == spec_mint_record_hash(
                    caller,
                    (old(self).tokens@.len() + 1) as TokenId,
                )
            }),
            forall|t: TokenId|
                old(self).has_token(t) ==> final(self).token_at(t) == old(self).token_at(t),
            final(self).total_supply == old(self).total_supply + 1,
            final(self).spec_owner_count(caller) == old(self).spec_owner_count(caller) + 1,
            forall|a: AccountId|
                a != caller ==> final(self).spec_owner_count(a) == old(self).spec_owner_count(a),
            final(self).balances@ == old(self).balances@.insert(
                spec_key(caller, (old(self).tokens@.len() + 1) as TokenId),
                1u128,
            ),
            final(self).admin == old(self).admin,
            final(self).shares == old(self).shares,
            final(self).operator_approvals == old(self).operator_approvals,
            final(self).bridge_config == old(self).bridge_config,
            final(self).bridge_operators == old(self).bridge_operators,
            final(self).bridge_requests == old(self).bridge_requests,
            final(self).verified_hashes == old(self).verified_hashes,
            final(self).bridged_tokens == old(self).bridged_tokens,
            final(self).bridge_transactions == old(self).bridge_transactions,
    {
        let token_id: TokenId = self.tokens.len() as u64 + 1;
        let property = PropertyInfo {
            id: token_id,
            owner: caller,
            metadata,
            registered_at: timestamp,
        };
        let compliance = ComplianceInfo {
            verified: false,
            verification_date: 0,
            verifier: SENTINEL,
            compliance_type: String::from_str("KYC"),
        };
        let mut history: Vec<OwnershipTransfer> = Vec::new();
        history.push(
            OwnershipTransfer {
                from: SENTINEL,
                to: caller,
                timestamp,
                transaction_hash: TxHash { w0: caller, w1: token_id, w2: 0, w3: 0 },
            },
        );
        let record = TokenRecord {
            owner: Some(caller),
            approval: None,
            property,
            compliance,
            documents: Vec::new(),
            history,
        };
        self.tokens.push(record);
        let key = pack_key(caller, token_id);
        self.balances.insert(key, 1);
        let count = self.balance_of(caller);
        self.owner_token_count.insert(caller, count + 1);
        self.total_supply = self.total_supply + 1;
        proof {
            assert(forall|t: TokenId|
                old(self).has_token(t) ==> final(self).token_at(t) == old(self).token_at(t));
            assert forall|i: int|
                0 <= i < self.bridge_requests@.len() && (#[trigger] self.bridge_requests@[i]).status
                    == crate::types::BridgeOperationStatus::Locked implies self.spec_owner_of(
                self.bridge_requests@[i].token_id,
            ) == Some(SENTINEL) by {
                assert(old(self).spec_owner_of(self.bridge_requests@[i].token_id) == Some(
                    SENTINEL,
                ));
            }
        }
        Ok(token_id)
    }

    /// The outcome `transfer_from` owes, by the priority of its checks. The
    /// sentinel holder is non-operable, so a frozen token can never move
    /// through here.
    pub open spec fn transfer_outcome(
        s: PropertyToken,
        caller: AccountId,
        from: AccountId,
        to: AccountId,
        token_id: TokenId,
    ) -> Result<(), Error> {
        if s.spec_owner_of(token_id) is None {
            Err(Error::TokenNotFound)
        } else if s.spec_owner_of(token_id) != Some(from) || from == SENTINEL {
            Err(Error::Unauthorized)
        } else if caller != from && s.token_at(token_id).approval != Some(caller)
            && !s.spec_approved_for_all(from, caller) {
            Err(Error::Unauthorized)
        } else if s.spec_owner_count(from) == 0 {
            Err(Error::TokenNotFound)
        } else {
            Ok(())
        }
    }

    /// Transfers a token. The caller must be the holder, the approved
    /// account, or an operator for the holder; approvals are cleared and the
    /// ownership history is extended. A failed call leaves the state as it
    /// was.
    pub fn transfer_from(
        &mut self,
        caller: AccountId,
        timestamp: u64,
        from: AccountId,
        to: AccountId,
        token_id: TokenId,
    ) -> (r: Result<(), Error>)
        requires
            old(self).wf(),
            Self::transfer_outcome(*old(self), caller, from, to, token_id) is Ok ==> old(
                self,
            ).spec_owner_count(to) < u32::MAX && old(self).token_at(token_id).history@.len()
                < usize::MAX,
        ensures
            final(self).wf(),
            r == Self::transfer_outcome(*old(self), caller, from, to, token_id),
            r is Err ==> *final(self) == *old(self),
            r is Ok ==> {
                let rec = old(self).token_at(token_id);
                &&& final(self).tokens@ == old(self).tokens@.update(
                    token_id - 1,
                    (TokenRecord {
                        owner: Some(to),
                        approval: None,
                        history: final(self).token_at(token_id).history,
                        ..rec
                    }),
                )
                &&& final(self).token_at(token_id).history@ == rec.history@.push(
                    (OwnershipTransfer {
                        from,
                        to,
                        timestamp,
                        transaction_hash: spec_transfer_record_hash(from, to, token_id),
                    }),
                )
                &&& final(self).spec_owner_of(token_id) == Some(to)
                &&& to != from ==> final(self).spec_owner_count(from) == old(
                    self,
                ).spec_owner_count(from) - 1
                &&& to != from ==> final(self).spec_owner_count(to) == old(self).spec_owner_count(
                    to,
                ) + 1
                &&& to == from ==> final(self).spec_owner_count(from) == old(
                    self,
                ).spec_owner_count(from)
                &&& forall|a: AccountId|
                    a != from && a != to ==> final(self).spec_owner_count(a) == old(
                        self,
                    ).spec_owner_count(a)
                &&& final(self).total_supply == old(self).total_supply
            },
            final(self).admin == old(self).admin,
            final(self).shares == old(self).shares,
            final(self).balances == old(self).balances,
            final(self).operator_approvals == old(self).operator_approvals,
            final(self).bridge_config == old(self).bridge_config,
            final(self).bridge_operators == old(self).bridge_operators,
            final(self).bridge_requests == old(self).bridge_requests,
            final(self).verified_hashes == old(self).verified_hashes,
            final(self).bridged_tokens == old(self).bridged_tokens,
            final(self).bridge_transactions == old(self).bridge_transactions,
    {
        let owner = self.owner_of(token_id);
        let owner = match owner {
            None => {
                return Err(Error::TokenNotFound);
            },
            Some(o) => o,
        };
        if owner != from || from == SENTINEL {
            return Err(Error::Unauthorized);
        }
        let idx = self.token_index(token_id);
        let approved = self.tokens[idx].approval;
        if caller != from && approved != Some(caller) && !self.is_approved_for_all(from, caller) {
            return Err(Error::Unauthorized);
        }
        let from_count = self.balance_of(from);
        if from_count == 0 {
            return Err(Error::TokenNotFound);
        }
        // Move the token: new holder, cleared approval, extended history.
        let mut rec = self.tokens.remove(idx);
        rec.owner = Some(to);
        rec.approval = None;
        rec.history.push(
            OwnershipTransfer {
                from,
                to,
                timestamp,
                transaction_hash: TxHash { w0: from, w1: to, w2: token_id, w3: 0 },
            },
        );
        self.tokens.insert(idx, rec);
        proof {
            assert(self.tokens@ =~= old(self).tokens@.update(
                token_id - 1,
                self.tokens@[token_id - 1],
            ));
        }
        self.owner_token_count.insert(from, from_count - 1);
        let to_count = self.balance_of(to);
        self.owner_token_count.insert(to, to_count + 1);
        proof {
            assert forall|i: int|
                0 <= i < self.bridge_requests@.len() && (#[trigger] self.bridge_requests@[i]).status
                    == crate::types::BridgeOperationStatus::Locked implies self.spec_owner_of(
                self.bridge_requests@[i].token_id,
            ) == Some(SENTINEL) by {
                assert(old(self).spec_owner_of(self.bridge_requests@[i].token_id) == Some(
                    SENTINEL,
                ));
                assert(self.bridge_requests@[i].token_id != token_id);
            }
        }
        Ok(())
    }

    /// The outcome `approve` owes, by the priority of its checks.
    pub open spec fn approve_outcome(
        s: PropertyToken,
        caller: AccountId,
        token_id: TokenId,
    ) -> Result<(), Error> {
        if s.spec_owner_of(token_id) is None {
            Err(Error::TokenNotFound)
        } else if s.spec_owner_of(token_id) != Some(caller) && !s.spec_approved_for_all(
            s.spec_owner_of(token_id)->Some_0,
            caller,
        ) {
            Err(Error::Unauthorized)
        } else {
            Ok(())
        }
    }

    /// Approves an account to transfer one token. The caller must be the
    /// holder or an operator for the holder.
    pub fn approve(&mut self, caller: AccountId, to: AccountId, token_id: TokenId) -> (r: Result<
        (),
        Error,
    >)
        requires
            old(self).wf(),
        ensures
            final(self).wf(),
            r == Self::approve_outcome(*old(self), caller, token_id),
            r is Err ==> *final(self) == *old(self),
            r is Ok ==> final(self).tokens@ == old(self).tokens@.update(
                token_id - 1,
                (TokenRecord { approval: Some(to), ..old(self).token_at(token_id) }),
            ),
            final(self).admin == old(self).admin,
            final(self).shares == old(self).shares,
            final(self).balances == old(self).balances,
            final(self).owner_token_count == old(self).owner_token_count,
            final(self).operator_approvals == old(self).operator_approvals,
            final(self).total_supply == old(self).total_supply,
            final(self).bridge_config == old(self).bridge_config,
            final(self).bridge_operators == old(self).bridge_operators,
            final(self).bridge_requests == old(self).bridge_requests,
            final(self).verified_hashes == old(self).verified_hashes,
            final(self).bridged_tokens == old(self).bridged_tokens,
            final(self).bridge_transactions == old(self).bridge_transactions,
    {
        let owner = self.owner_of(token_id);
        let owner = match owner {
            None => {
                return Err(Error::TokenNotFound);
            },
            Some(o) => o,
        };
        if owner != caller && !self.is_approved_for_all(owner, caller) {
            return Err(Error::Unauthorized);
        }
        let idx = self.token_index(token_id);
        let mut rec = self.tokens.remove(idx);
        rec.approval = Some(to);
        self.tokens.insert(idx, rec);
        proof {
            assert(self.tokens@ =~= old(self).tokens@.update(
                token_id - 1,
                self.tokens@[token_id - 1],
            ));
            assert forall|i: int|
                0 <= i < self.bridge_requests@.len() && (#[trigger] self.bridge_requests@[i]).status
                    == crate::types::BridgeOperationStatus::Locked implies self.spec_owner_of(
                self.bridge_requests@[i].token_id,
            ) == Some(SENTINEL) by {
                assert(old(self).spec_owner_of(self.bridge_requests@[i].token_id) == Some(
                    SENTINEL,
                ));
            }
        }
        Ok(())
    }

    /// The outcome `attach_legal_document` owes.
    pub open spec fn attach_outcome(
        s: PropertyToken,
        caller: AccountId,
        token_id: TokenId,
    ) -> Result<(), Error> {
        if s.spec_owner_of(token_id) is None {
            Err(Error::TokenNotFound)
        } else if s.spec_owner_of(token_id) != Some(caller) {
            Err(Error::Unauthorized)
        } else {
            Ok(())
        }
    }

    /// Attaches a legal document to a token the caller holds.
    pub fn attach_legal_document(
        &mut self,
        caller: AccountId,
        timestamp: u64,
        token_id: TokenId,
        document_hash: TxHash,
        document_type: String,
    ) -> (r: Result<(), Error>)
        requires
            old(self).wf(),
            old(self).token_at(token_id).documents@.len() < usize::MAX,
        ensures
            final(self).wf(),
            r == Self::attach_outcome(*old(self), caller, token_id),
            r is Err ==> *final(self) == *old(self),
            r is Ok ==> {
                &&& final(self).tokens@ == old(self).tokens@.update(
                    token_id - 1,
                    (TokenRecord {
                        documents: final(self).token_at(token_id).documents,
                        ..old(self).token_at(token_id)
                    }),
                )
                &&& final(self).token_at(token_id).documents@ == old(self).token_at(
                    token_id,
                ).documents@.push(
                    (DocumentInfo {
                        document_hash,
                        document_type,
                        upload_date: timestamp,
                        uploader: caller,
                    }),
                )
            },
            final(self).admin == old(self).admin,
            final(self).shares == old(self).shares,
            final(self).balances == old(self).balances,
            final(self).owner_token_count == old(self).owner_token_count,
            final(self).operator_approvals == old(self).operator_approvals,
            final(self).total_supply == old(self).total_supply,
            final(self).bridge_config == old(self).bridge_config,
            final(self).bridge_operators == old(self).bridge_operators,
            final(self).bridge_requests == old(self).bridge_requests,
            final(self).verified_hashes == old(self).verified_hashes,
            final(self).bridged_tokens == old(self).bridged_tokens,
            final(self).bridge_transactions == old(self).bridge_transactions,
    {
        let owner = self.owner_of(token_id);
        let owner = match owner {
            None => {
                return Err(Error::TokenNotFound);
            },
            Some(o) => o,
        };
        if owner != caller {
            return Err(Error::Unauthorized);
        }
        let idx = self.token_index(token_id);
        let mut rec = self.tokens.remove(idx);
        rec.documents.push(
            DocumentInfo { document_hash, document_type, upload_date: timestamp, uploader: caller },
        );
        self.tokens.insert(idx, rec);
        proof {
            assert(self.tokens@ =~= old(self).tokens@.update(
                token_id - 1,
                self.tokens@[token_id - 1],
            ));
            assert forall|i: int|
                0 <= i < self.bridge_requests@.len() && (#[trigger] self.bridge_requests@[i]).status
                    == crate::types::BridgeOperationStatus::Locked implies self.spec_owner_of(
                self.bridge_requests@[i].token_id,
            ) == Some(SENTINEL) by {
                assert(old(self).spec_owner_of(self.bridge_requests@[i].token_id) == Some(
                    SENTINEL,
                ));
            }
        }
        Ok(())
    }

    /// The outcome `verify_compliance` owes: only the administrator or an
    /// operator may set the flag, and the token must exist.
    pub open spec fn verify_compliance_outcome(
        s: PropertyToken,
        caller: AccountId,
        token_id: TokenId,
    ) -> Result<(), Error> {
        if caller != s.admin && !s.spec_is_operator(caller) {
            Err(Error::Unauthorized)
        } else if !s.has_token(token_id) {
            Err(Error::TokenNotFound)
        } else {
            Ok(())
        }
    }

    /// Sets a token's compliance flag. Administrator or operator only; the
    /// verifier and the time are recorded with the flag.
    pub fn verify_compliance(
        &mut self,
        caller: AccountId,
        timestamp: u64,
        token_id: TokenId,
        verification_status: bool,
    ) -> (r: Result<(), Error>)
        requires
            old(self).wf(),
        ensures
            final(self).wf(),
            r == Self::verify_compliance_outcome(*old(self), caller, token_id),
            r is Err ==> *final(self) == *old(self),
            r is Ok ==> {
                &&& final(self).tokens@ == old(self).tokens@.update(
                    token_id - 1,
                    (TokenRecord {
                        compliance: final(self).token_at(token_id).compliance,
                        ..old(self).token_at(token_id)
                    }),
                )
                &&& final(self).token_at(token_id).compliance.verified == verification_status
                &&& final(self).token_at(token_id).compliance.verification_date == timestamp
                &&& final(self).token_at(token_id).compliance.verifier == caller
                &&& final(self).token_at(token_id).compliance.compliance_type == old(
                    self,
                ).token_at(token_id).compliance.compliance_type
            },
            final(self).admin == old(self).admin,
            final(self).shares == old(self).shares,
            final(self).balances == old(self).balances,
            final(self).owner_token_count == old(self).owner_token_count,
            final(self).operator_approvals == old(self).operator_approvals,
            final(self).total_supply == old(self).total_supply,
            final(self).bridge_config == old(self).bridge_config,
            final(self).bridge_operators == old(self).bridge_operators,
            final(self).bridge_requests == old(self).bridge_requests,
            final(self).verified_hashes == old(self).verified_hashes,
            final(self).bridged_tokens == old(self).bridged_tokens,
            final(self).bridge_transactions == old(self).bridge_transactions,
    {
        if caller != self.admin && !self.is_bridge_operator(caller) {
            return Err(Error::Unauthorized);
        }
        if !(token_id >= 1 && token_id <= self.tokens.len() as u64) {
            return Err(Error::TokenNotFound);
        }
        let idx = self.token_index(token_id);
        let mut rec = self.tokens.remove(idx);
        rec.compliance = ComplianceInfo {
            verified: verification_status,
            verification_date: timestamp,
            verifier: caller,
            compliance_type: rec.compliance.compliance_type,
        };
        self.tokens.insert(idx, rec);
        proof {
            assert(self.tokens@ =~= old(self).tokens@.update(
                token_id - 1,
                self.tokens@[token_id - 1],
            ));
            assert forall|i: int|
                0 <= i < self.bridge_requests@.len() && (#[trigger] self.bridge_requests@[i]).status
                    == crate::types::BridgeOperationStatus::Locked implies self.spec_owner_of(
                self.bridge_requests@[i].token_id,
            ) == Some(SENTINEL) by {
                assert(old(self).spec_owner_of(self.bridge_requests@[i].token_id) == Some(
                    SENTINEL,
                ));
            }
        }
        Ok(())
    }

    /// Returns a copy of a token's ownership history, oldest first.
    pub fn get_ownership_history(&self, token_id: TokenId) -> (r: Option<Vec<OwnershipTransfer>>)
        ensures
            match r {
                Some(h) => self.has_token(token_id) && h@ == self.token_at(token_id).history@,
                None => !self.has_token(token_id),
            },
    {
        if !(token_id >= 1 && token_id <= self.tokens.len() as u64) {
            return None;
        }
        let idx = self.token_index(token_id);
        let stored = &self.tokens[idx].history;
        let mut out: Vec<OwnershipTransfer> = Vec::new();
        let mut i: usize = 0;
        while i < stored.len()
            invariant
                0 <= i <= stored@.len(),
                out@ == stored@.subrange(0, i as int),
        decreases stored@.len() - i,
        {
            out.push(stored[i]);
            i = i + 1;
            proof {
                assert(out@ =~= stored@.subrange(0, i as int));
            }
        }
        proof {
            assert(out@ =~= stored@);
        }
        Some(out)
    }
}

} // verus!
