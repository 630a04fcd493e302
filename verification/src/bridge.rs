use vstd::prelude::*;
use vstd::hash_map::HashMapWithView;

use crate::account::AccountId;
use crate::account::SENTINEL;
use crate::hash::TxHash;
use crate::types::BridgeConfig;
use crate::types::BridgeOperationStatus;
use crate::types::BridgedTokenInfo;
use crate::types::BridgeTransaction;
use crate::types::ChainId;
use crate::types::ComplianceInfo;
use crate::types::Error;
use crate::types::MultisigBridgeRequest;
use crate::types::DocumentInfo;
use crate::types::OwnershipTransfer;
use crate::types::PropertyInfo;
use crate::types::TokenId;

verus! {

broadcast use vstd::std_specs::hash::group_hash_axioms;

/// The ledger identifier of the local chain.
pub const LOCAL_CHAIN: ChainId = 1;

/// One minted token with everything the ledger keeps about it.
#[derive(Debug)]
pub struct TokenRecord {
    /// The current holder; `SENTINEL` while frozen for a bridge, `None` once
    /// burned.
    pub owner: Option<AccountId>,
    /// The account approved to transfer this token, if any.
    pub approval: Option<AccountId>,
    /// The property this token stands for.
    pub property: PropertyInfo,
    /// The compliance flag and its provenance.
    pub compliance: ComplianceInfo,
    /// Attached legal documents.
    pub documents: Vec<DocumentInfo>,
    /// The ownership history, oldest first.
    pub history: Vec<OwnershipTransfer>,
}

/// One entry of the verified-hash registry. `consumed` is set once the hash
/// has been accepted for minting, so a hash mints at most once.
#[derive(Debug, Clone, Copy, PartialEq, Eq, Structural)]
pub struct HashEntry {
    pub hash: TxHash,
    pub consumed: bool,
}

/// One record of the bridged-token table, keyed by destination ledger and
/// origin token.
#[derive(Debug, Clone, Copy, PartialEq, Eq, Structural)]
pub struct BridgedEntry {
    pub chain: ChainId,
    pub token_id: TokenId,
    pub info: BridgedTokenInfo,
}

/// The packed map key for a pair of 64-bit identifiers.
pub open spec fn spec_key(a: u64, b: u64) -> u128 {
    ((a as u128) * 0x1_0000_0000_0000_0000 + (b as u128)) as u128
}

/// Packs a pair of 64-bit identifiers into one map key.
pub fn pack_key(a: u64, b: u64) -> (r: u128)
    ensures
        r == spec_key(a, b),
{
    let r: u128 = ((a as u128) << 64) | (b as u128);
    proof {
        assert(((a as u128) << 64) | (b as u128) == (a as u128) * 0x1_0000_0000_0000_0000 + (
        b as u128)) by (bit_vector);
    }
    r
}

/// The share, dividend, governance and trading books of the ledger, plus the
/// optional external compliance registry consulted on share movements.
pub struct ShareLedger {
    /// The external compliance gate, when one is configured.
    pub compliance_registry: Option<AccountId>,
    /// Issued shares per token.
    pub total_shares: HashMapWithView<u64, u128>,
    /// Accumulated dividends per share, scaled by 10^12, per token.
    pub dividends_per_share: HashMapWithView<u64, u128>,
    /// The dividends-per-share level each account was last credited at,
    /// keyed by packed (account, token id).
    pub dividend_credit: HashMapWithView<u128, u128>,
    /// Withdrawable dividends, keyed by packed (account, token id).
    pub dividend_balance: HashMapWithView<u128, u128>,
    /// How many proposals each token has seen.
    pub proposal_counter: HashMapWithView<u64, u64>,
    /// Governance proposals, keyed by packed (token id, proposal id).
    pub proposals: HashMapWithView<u128, crate::types::Proposal>,
    /// Who has voted on each proposal, keyed by packed (token id, proposal
    /// id).
    pub votes: HashMapWithView<u128, Vec<AccountId>>,
    /// Open sell offers, keyed by packed (token id, seller).
    pub asks: HashMapWithView<u128, crate::types::Ask>,
    /// Shares held back for open asks, keyed by packed (token id, seller).
    pub escrowed_shares: HashMapWithView<u128, u128>,
    /// The price of the latest trade, per token.
    pub last_trade_price: HashMapWithView<u64, u128>,
    /// Taxable activity, keyed by packed (account, token id).
    pub tax_records: HashMapWithView<u128, crate::types::TaxRecord>,
}

impl ShareLedger {
    /// An empty book with no compliance registry.
    pub fn new() -> (r: Self)
        ensures
            r.compliance_registry is None,
            r.total_shares@ == Map::<u64, u128>::empty(),
            r.dividends_per_share@ == Map::<u64, u128>::empty(),
            r.dividend_credit@ == Map::<u128, u128>::empty(),
            r.dividend_balance@ == Map::<u128, u128>::empty(),
            r.proposal_counter@ == Map::<u64, u64>::empty(),
            r.proposals@ == Map::<u128, crate::types::Proposal>::empty(),
            r.votes@ == Map::<u128, Vec<AccountId>>::empty(),
            r.asks@ == Map::<u128, crate::types::Ask>::empty(),
            r.escrowed_shares@ == Map::<u128, u128>::empty(),
            r.last_trade_price@ == Map::<u64, u128>::empty(),
            r.tax_records@ == Map::<u128, crate::types::TaxRecord>::empty(),
    {
        ShareLedger {
            compliance_registry: None,
            total_shares: HashMapWithView::new(),
            dividends_per_share: HashMapWithView::new(),
            dividend_credit: HashMapWithView::new(),
            dividend_balance: HashMapWithView::new(),
            proposal_counter: HashMapWithView::new(),
            proposals: HashMapWithView::new(),
            votes: HashMapWithView::new(),
            asks: HashMapWithView::new(),
            escrowed_shares: HashMapWithView::new(),
            last_trade_price: HashMapWithView::new(),
            tax_records: HashMapWithView::new(),
        }
    }
}

/// The property token ledger: token store, bridge request ledger, operator
/// set, verified-hash registry and audit history, as one explicit state
/// machine. Each operation takes the calling account and the current ledger
/// time as plain arguments and runs to completion as one atomic step.
pub struct PropertyToken {
    /// The administrator account.
    pub admin: AccountId,
    /// Minted tokens; the token with id `i + 1` sits at index `i`.
    pub tokens: Vec<TokenRecord>,
    /// Transferable balances, keyed by packed (account, token id).
    pub balances: HashMapWithView<u128, u128>,
    /// How many tokens each account holds.
    pub owner_token_count: HashMapWithView<u64, u32>,
    /// Operator approvals, keyed by packed (owner, operator).
    pub operator_approvals: HashMapWithView<u128, bool>,
    /// Number of live (minted, not burned) tokens.
    pub total_supply: u64,
    /// Process-wide bridge parameters.
    pub bridge_config: BridgeConfig,
    /// Accounts authorized to sign, execute and receive bridge requests.
    pub bridge_operators: Vec<AccountId>,
    /// All bridge requests ever created; the request with id `i + 1` sits at
    /// index `i`. Requests are never deleted.
    pub bridge_requests: Vec<MultisigBridgeRequest>,
    /// The verified-hash registry. Only `execute_bridge` registers hashes;
    /// `receive_bridged_token` only marks them consumed, and no entry is
    /// ever removed.
    pub verified_hashes: Vec<HashEntry>,
    /// Cross-ledger records of bridged tokens.
    pub bridged_tokens: Vec<BridgedEntry>,
    /// Per-account audit history of bridge executions.
    pub bridge_transactions: HashMapWithView<u64, Vec<BridgeTransaction>>,
    /// The share, dividend, governance and trading books.
    pub shares: ShareLedger,
}

impl PropertyToken {
    /// True when a token with this id has been minted (it may since have been
    /// burned or frozen).
    pub open spec fn has_token(self, token_id: TokenId) -> bool {
        1 <= token_id <= self.tokens@.len()
    }

    /// The record of a minted token.
    pub open spec fn token_at(self, token_id: TokenId) -> TokenRecord
        recommends
            self.has_token(token_id),
    {
        self.tokens@[token_id - 1]
    }

    /// The current holder of a token: `None` for unminted or burned tokens.
    pub open spec fn spec_owner_of(self, token_id: TokenId) -> Option<AccountId> {
        if self.has_token(token_id) {
            self.token_at(token_id).owner
        } else {
            None
        }
    }

    /// The transferable balance of an account on a token.
    pub open spec fn spec_balance(self, account: AccountId, token_id: TokenId) -> u128 {
        if self.balances@.contains_key(spec_key(account, token_id)) {
            self.balances@[spec_key(account, token_id)]
        } else {
            0
        }
    }

    /// True when `operator` may act for `owner` on all tokens.
    pub open spec fn spec_approved_for_all(self, owner: AccountId, operator: AccountId) -> bool {
        self.operator_approvals@.contains_key(spec_key(owner, operator))
            && self.operator_approvals@[spec_key(owner, operator)]
    }

    /// True when the account is a registered bridge operator.
    pub open spec fn spec_is_operator(self, account: AccountId) -> bool {
        self.bridge_operators@.contains(account)
    }

    /// True when a bridge request with this id exists.
    pub open spec fn has_request(self, request_id: u64) -> bool {
        1 <= request_id <= self.bridge_requests@.len()
    }

    /// The stored request with the given id.
    pub open spec fn req(self, request_id: u64) -> MultisigBridgeRequest
        recommends
            self.has_request(request_id),
    {
        self.bridge_requests@[request_id - 1]
    }

    /// A request in this state holds or may still take the token.
    pub open spec fn is_active_status(status: BridgeOperationStatus) -> bool {
        status == BridgeOperationStatus::Pending || status == BridgeOperationStatus::Locked
    }

    /// True when some non-terminal request exists for the token.
    pub open spec fn has_pending_for(self, token_id: TokenId) -> bool {
        exists|i: int|
            0 <= i < self.bridge_requests@.len()
                && (#[trigger] self.bridge_requests@[i]).token_id == token_id
                && Self::is_active_status(self.bridge_requests@[i].status)
    }

    /// True when some request currently holds this token locked.
    pub open spec fn has_locked_for(self, token_id: TokenId) -> bool {
        exists|i: int|
            0 <= i < self.bridge_requests@.len()
                && (#[trigger] self.bridge_requests@[i]).token_id == token_id
                && self.bridge_requests@[i].status == BridgeOperationStatus::Locked
    }

    /// True when the hash has ever been recorded by an execution.
    pub open spec fn hash_registered(self, h: TxHash) -> bool {
        exists|i: int|
            0 <= i < self.verified_hashes@.len() && (#[trigger] self.verified_hashes@[i]).hash == h
    }

    /// True when the hash is recorded and has not yet been accepted for
    /// minting: exactly the hashes `receive_bridged_token` accepts.
    pub open spec fn hash_mintable(self, h: TxHash) -> bool {
        exists|i: int|
            0 <= i < self.verified_hashes@.len() && (#[trigger] self.verified_hashes@[i]).hash == h
                && !self.verified_hashes@[i].consumed
    }

    /// True when a bridged-token record exists for (chain, token).
    pub open spec fn has_bridged(self, chain: ChainId, token_id: TokenId) -> bool {
        exists|i: int|
            0 <= i < self.bridged_tokens@.len() && (#[trigger] self.bridged_tokens@[i]).chain
                == chain && self.bridged_tokens@[i].token_id == token_id
    }

    /// The index of the bridged-token record for (chain, token).
    pub open spec fn bridged_index(self, chain: ChainId, token_id: TokenId) -> int {
        choose|i: int|
            0 <= i < self.bridged_tokens@.len() && (#[trigger] self.bridged_tokens@[i]).chain
                == chain && self.bridged_tokens@[i].token_id == token_id
    }

    /// The bridged-token record for (chain, token).
    pub open spec fn bridged_info_at(self, chain: ChainId, token_id: TokenId) -> BridgedTokenInfo
        recommends
            self.has_bridged(chain, token_id),
    {
        self.bridged_tokens@[self.bridged_index(chain, token_id)].info
    }

    /// The recorded bridge history of an account, oldest first.
    pub open spec fn spec_history_of(self, account: AccountId) -> Seq<BridgeTransaction> {
        if self.bridge_transactions@.contains_key(account) {
            self.bridge_transactions@[account]@
        } else {
            Seq::empty()
        }
    }

    /// Requests sit at the index their id names, and ids never exceed the
    /// counter.
    pub open spec fn requests_well_indexed(self) -> bool {
        forall|i: int|
            0 <= i < self.bridge_requests@.len() ==> (#[trigger] self.bridge_requests@[i]).request_id
                == i + 1
    }

    /// Tokens sit at the index their id names.
    pub open spec fn tokens_well_indexed(self) -> bool {
        forall|i: int|
            0 <= i < self.tokens@.len() ==> (#[trigger] self.tokens@[i]).property.id == i + 1
    }

    /// No request's signature list repeats an operator.
    pub open spec fn signatures_unique_in(r: MultisigBridgeRequest) -> bool {
        forall|j: int, k: int|
            0 <= j < k < r.signatures@.len() ==> r.signatures@[j] != r.signatures@[k]
    }

    /// No request repeats a signer.
    pub open spec fn signatures_unique(self) -> bool {
        forall|i: int|
            0 <= i < self.bridge_requests@.len() ==> Self::signatures_unique_in(
                #[trigger] self.bridge_requests@[i],
            )
    }

    /// At most one non-terminal request exists per token.
    pub open spec fn single_active_per_token(self) -> bool {
        forall|i: int, j: int|
            0 <= i < j < self.bridge_requests@.len() && Self::is_active_status(
                (#[trigger] self.bridge_requests@[i]).status,
            ) && Self::is_active_status((#[trigger] self.bridge_requests@[j]).status)
                ==> self.bridge_requests@[i].token_id != self.bridge_requests@[j].token_id
    }

    /// While a request is locked, its token's holder is forced to the
    /// sentinel, so no ordinary transfer of it can succeed.
    pub open spec fn locked_frozen(self) -> bool {
        forall|i: int|
            0 <= i < self.bridge_requests@.len() && (#[trigger] self.bridge_requests@[i]).status
                == BridgeOperationStatus::Locked ==> self.spec_owner_of(
                self.bridge_requests@[i].token_id,
            ) == Some(SENTINEL)
    }

    /// Requests speak of minted tokens only.
    pub open spec fn requests_token_exists(self) -> bool {
        forall|i: int|
            0 <= i < self.bridge_requests@.len() ==> self.has_token(
                (#[trigger] self.bridge_requests@[i]).token_id,
            )
    }

    /// Every registered hash was recorded by the execution of the request
    /// its leading word names: that request is `Completed` and the hash is
    /// exactly the derived hash of its fields.
    pub open spec fn registry_sound(self) -> bool {
        forall|k: int|
            0 <= k < self.verified_hashes@.len() ==> {
                let h = (#[trigger] self.verified_hashes@[k]).hash;
                &&& self.has_request(h.w0)
                &&& self.req(h.w0).status == BridgeOperationStatus::Completed
                &&& h == crate::hash::spec_bridge_hash(
                    h.w0,
                    self.req(h.w0).token_id,
                    self.req(h.w0).source_chain,
                    self.req(h.w0).destination_chain,
                )
            }
    }

    /// The registry never records the same hash twice.
    pub open spec fn registry_unique(self) -> bool {
        forall|i: int, j: int|
            0 <= i < j < self.verified_hashes@.len() ==> (#[trigger] self.verified_hashes@[i]).hash
                != (#[trigger] self.verified_hashes@[j]).hash
    }

    /// The operator list holds each account at most once.
    pub open spec fn operators_unique(self) -> bool {
        forall|i: int, j: int|
            0 <= i < j < self.bridge_operators@.len() ==> self.bridge_operators@[i]
                != self.bridge_operators@[j]
    }

    /// The bridged-token table holds each (chain, token) key at most once.
    pub open spec fn bridged_keys_unique(self) -> bool {
        forall|i: int, j: int|
            0 <= i < j < self.bridged_tokens@.len() ==> !((#[trigger] self.bridged_tokens@[i]).chain
                == (#[trigger] self.bridged_tokens@[j]).chain && self.bridged_tokens@[i].token_id
                == self.bridged_tokens@[j].token_id)
    }

    /// The sentinel is non-operable: it never grants operator approvals, so
    /// nothing can act on its behalf.
    pub open spec fn sentinel_grants_none(self) -> bool {
        forall|a: AccountId|
            !(#[trigger] self.operator_approvals@.contains_key(spec_key(SENTINEL, a))
                && self.operator_approvals@[spec_key(SENTINEL, a)])
    }

    /// Well-formedness: the invariants every operation preserves.
    pub open spec fn wf(self) -> bool {
        &&& self.requests_well_indexed()
        &&& self.tokens_well_indexed()
        &&& self.signatures_unique()
        &&& self.single_active_per_token()
        &&& self.locked_frozen()
        &&& self.requests_token_exists()
        &&& self.registry_sound()
        &&& self.registry_unique()
        &&& self.operators_unique()
        &&& self.bridged_keys_unique()
        &&& self.sentinel_grants_none()
    }

    /// Creates a fresh ledger. The creating account becomes administrator and
    /// the first bridge operator; the bridge starts with its default
    /// configuration.
    pub fn new(caller: AccountId) -> (r: Self)
        ensures
            r.wf(),
            r.admin == caller,
            r.tokens@.len() == 0,
            r.total_supply == 0,
            r.bridge_requests@.len() == 0,
            r.verified_hashes@.len() == 0,
            r.bridged_tokens@.len() == 0,
            r.bridge_operators@ == seq![caller],
            r.bridge_config.supported_chains@ == seq![1u64, 2u64, 3u64],
            r.bridge_config.min_signatures_required == 2,
            r.bridge_config.max_signatures_required == 5,
            r.bridge_config.default_timeout_blocks == 100,
            r.bridge_config.gas_limit_per_bridge == 500000,
            !r.bridge_config.emergency_pause,
            r.bridge_config.metadata_preservation,
            r.balances@ == Map::<u128, u128>::empty(),
            r.operator_approvals@ == Map::<u128, bool>::empty(),
            r.owner_token_count@ == Map::<u64, u32>::empty(),
            r.bridge_transactions@ == Map::<u64, Vec<BridgeTransaction>>::empty(),
            r.shares.compliance_registry is None,
            r.shares.total_shares@ == Map::<u64, u128>::empty(),
            r.shares.dividends_per_share@ == Map::<u64, u128>::empty(),
            r.shares.dividend_credit@ == Map::<u128, u128>::empty(),
            r.shares.dividend_balance@ == Map::<u128, u128>::empty(),
            r.shares.proposal_counter@ == Map::<u64, u64>::empty(),
            r.shares.proposals@ == Map::<u128, crate::types::Proposal>::empty(),
            r.shares.votes@ == Map::<u128, Vec<AccountId>>::empty(),
            r.shares.asks@ == Map::<u128, crate::types::Ask>::empty(),
            r.shares.escrowed_shares@ == Map::<u128, u128>::empty(),
            r.shares.last_trade_price@ == Map::<u64, u128>::empty(),
            r.shares.tax_records@ == Map::<u128, crate::types::TaxRecord>::empty(),
    {
        let mut supported_chains: Vec<ChainId> = Vec::new();
        supported_chains.push(1);
        supported_chains.push(2);
        supported_chains.push(3);
        proof {
            assert(supported_chains@ =~= seq![1u64, 2u64, 3u64]);
        }
        let bridge_config = BridgeConfig {
            supported_chains,
            min_signatures_required: 2,
            max_signatures_required: 5,
            default_timeout_blocks: 100,
            gas_limit_per_bridge: 500000,
            emergency_pause: false,
            metadata_preservation: true,
        };
        let mut bridge_operators: Vec<AccountId> = Vec::new();
        bridge_operators.push(caller);
        proof {
            assert(bridge_operators@ =~= seq![caller]);
        }
        PropertyToken {
            admin: caller,
            tokens: Vec::new(),
            balances: HashMapWithView::new(),
            owner_token_count: HashMapWithView::new(),
            operator_approvals: HashMapWithView::new(),
            total_supply: 0,
            bridge_config,
            bridge_operators,
            bridge_requests: Vec::new(),
            verified_hashes: Vec::new(),
            bridged_tokens: Vec::new(),
            bridge_transactions: HashMapWithView::new(),
            shares: ShareLedger::new(),
        }
    }

    /// Looks an account up in the operator list.
    pub fn is_bridge_operator(&self, account: AccountId) -> (r: bool)
        ensures
            r == self.spec_is_operator(account),
    {
        let mut i: usize = 0;
        while i < self.bridge_operators.len()
            invariant
                0 <= i <= self.bridge_operators.len(),
                forall|j: int| 0 <= j < i ==> self.bridge_operators@[j] != account,
            decreases self.bridge_operators.len() - i,
        {
            if self.bridge_operators[i] == account {
                return true;
            }
            i = i + 1;
        }
        false
    }

    /// Adds a bridge operator. Administrator only; adding an existing
    /// operator is a no-op.
    pub fn add_bridge_operator(&mut self, caller: AccountId, operator: AccountId) -> (r: Result<
        (),
        Error,
    >)
        requires
            old(self).wf(),
        ensures
            final(self).wf(),
            r == if caller != old(self).admin {
                Err::<(), Error>(Error::Unauthorized)
            } else {
                Ok::<(), Error>(())
            },
            caller != old(self).admin ==> *final(self) == *old(self),
            caller == old(self).admin ==> {
                &&& final(self).spec_is_operator(operator)
                &&& forall|a: AccountId|
                    final(self).spec_is_operator(a) == (old(self).spec_is_operator(a) || a
                        == operator)
                &&& final(self).bridge_operators@ == if old(self).spec_is_operator(operator) {
                    old(self).bridge_operators@
                } else {
                    old(self).bridge_operators@.push(operator)
                }
            },
            final(self).admin == old(self).admin,
            final(self).shares == old(self).shares,
            final(self).tokens == old(self).tokens,
            final(self).balances == old(self).balances,
            final(self).owner_token_count == old(self).owner_token_count,
            final(self).operator_approvals == old(self).operator_approvals,
            final(self).total_supply == old(self).total_supply,
            final(self).bridge_config == old(self).bridge_config,
            final(self).bridge_requests == old(self).bridge_requests,
            final(self).verified_hashes == old(self).verified_hashes,
            final(self).bridged_tokens == old(self).bridged_tokens,
            final(self).bridge_transactions == old(self).bridge_transactions,
    {
        if caller != self.admin {
            return Err(Error::Unauthorized);
        }
        if !self.is_bridge_operator(operator) {
            self.bridge_operators.push(operator);
            proof {
                assert forall|a: AccountId|
                    final(self).spec_is_operator(a) == (old(self).spec_is_operator(a) || a
                        == operator) by {
                    if a == operator {
                        assert(self.bridge_operators@[self.bridge_operators@.len() - 1] == a);
                    } else if old(self).spec_is_operator(a) {
                        let j = choose|j: int|
                            0 <= j < old(self).bridge_operators@.len() && old(
                                self,
                            ).bridge_operators@[j] == a;
                        assert(self.bridge_operators@[j] == a);
                    } else {
                        assert forall|j: int|
                            0 <= j < self.bridge_operators@.len() implies self.bridge_operators@[j]
                            != a by {
                            if j < old(self).bridge_operators@.len() {
                                assert(old(self).bridge_operators@[j] != a);
                            }
                        }
                    }
                }
            }
        } else {
            proof {
                assert forall|a: AccountId|
                    self.spec_is_operator(a) == (old(self).spec_is_operator(a) || a == operator) by {
                }
            }
        }
        Ok(())
    }

    /// Removes a bridge operator. Administrator only; removing a non-member
    /// is a no-op.
    pub fn remove_bridge_operator(&mut self, caller: AccountId, operator: AccountId) -> (r: Result<
        (),
        Error,
    >)
        requires
            old(self).wf(),
        ensures
            final(self).wf(),
            r == if caller != old(self).admin {
                Err::<(), Error>(Error::Unauthorized)
            } else {
                Ok::<(), Error>(())
            },
            caller != old(self).admin ==> *final(self) == *old(self),
            caller == old(self).admin ==> {
                &&& !final(self).spec_is_operator(operator)
                &&& forall|a: AccountId|
                    final(self).spec_is_operator(a) == (old(self).spec_is_operator(a) && a
                        != operator)
            },
            final(self).admin == old(self).admin,
            final(self).shares == old(self).shares,
            final(self).tokens == old(self).tokens,
            final(self).balances == old(self).balances,
            final(self).owner_token_count == old(self).owner_token_count,
            final(self).operator_approvals == old(self).operator_approvals,
            final(self).total_supply == old(self).total_supply,
            final(self).bridge_config == old(self).bridge_config,
            final(self).bridge_requests == old(self).bridge_requests,
            final(self).verified_hashes == old(self).verified_hashes,
            final(self).bridged_tokens == old(self).bridged_tokens,
            final(self).bridge_transactions == old(self).bridge_transactions,
    {
        if caller != self.admin {
            return Err(Error::Unauthorized);
        }
        let mut i: usize = 0;
        while i < self.bridge_operators.len()
            invariant
                *self == *old(self),
                old(self).wf(),
                caller == old(self).admin,
                0 <= i <= self.bridge_operators.len(),
                forall|j: int| 0 <= j < i ==> self.bridge_operators@[j] != operator,
            decreases self.bridge_operators.len() - i,
        {
            if self.bridge_operators[i] == operator {
                self.bridge_operators.remove(i);
                proof {
                    let old_ops = old(self).bridge_operators@;
                    let new_ops = self.bridge_operators@;
                    assert(new_ops =~= old_ops.subrange(0, i as int) + old_ops.subrange(
                        i as int + 1,
                        old_ops.len() as int,
                    ));
                    assert forall|k: int| 0 <= k < new_ops.len() implies new_ops[k] == (if k
                        < i as int {
                        old_ops[k]
                    } else {
                        old_ops[k + 1]
                    }) by {}
                    assert forall|a: AccountId|
                        self.spec_is_operator(a) == (old(self).spec_is_operator(a) && a
                            != operator) by {
                        if self.spec_is_operator(a) {
                            let k = choose|k: int| 0 <= k < new_ops.len() && new_ops[k] == a;
                            if k < i as int {
                                assert(old_ops[k] == a);
                            } else {
                                assert(old_ops[k + 1] == a);
                            }
                        }
                        if old(self).spec_is_operator(a) && a != operator {
                            let k = choose|k: int| 0 <= k < old_ops.len() && old_ops[k] == a;
                            if k < i as int {
                                assert(new_ops[k] == a);
                            } else {
                                assert(k != i as int);
                                assert(new_ops[k - 1] == a);
                            }
                        }
                    }
                }
                return Ok(());
            }
            i = i + 1;
        }
        Ok(())
    }

    /// Returns a copy of the operator list.
    pub fn get_bridge_operators(&self) -> (r: Vec<AccountId>)
        ensures
            r@ == self.bridge_operators@,
    {
        crate::types::clone_account_list(&self.bridge_operators)
    }

    /// Replaces the bridge configuration. Administrator only.
    pub fn update_bridge_config(&mut self, caller: AccountId, config: BridgeConfig) -> (r: Result<
        (),
        Error,
    >)
        requires
            old(self).wf(),
        ensures
            final(self).wf(),
            r == if caller != old(self).admin {
                Err::<(), Error>(Error::Unauthorized)
            } else {
                Ok::<(), Error>(())
            },
            caller != old(self).admin ==> *final(self) == *old(self),
            caller == old(self).admin ==> final(self).bridge_config == config,
            final(self).admin == old(self).admin,
            final(self).shares == old(self).shares,
            final(self).tokens == old(self).tokens,
            final(self).balances == old(self).balances,
            final(self).owner_token_count == old(self).owner_token_count,
            final(self).operator_approvals == old(self).operator_approvals,
            final(self).total_supply == old(self).total_supply,
            final(self).bridge_operators == old(self).bridge_operators,
            final(self).bridge_requests == old(self).bridge_requests,
            final(self).verified_hashes == old(self).verified_hashes,
            final(self).bridged_tokens == old(self).bridged_tokens,
            final(self).bridge_transactions == old(self).bridge_transactions,
    {
        if caller != self.admin {
            return Err(Error::Unauthorized);
        }
        self.bridge_config = config;
        Ok(())
    }

    /// Returns a copy of the bridge configuration.
    pub fn get_bridge_config(&self) -> (r: BridgeConfig)
        ensures
            r.supported_chains@ == self.bridge_config.supported_chains@,
            r.min_signatures_required == self.bridge_config.min_signatures_required,
            r.max_signatures_required == self.bridge_config.max_signatures_required,
            r.default_timeout_blocks == self.bridge_config.default_timeout_blocks,
            r.gas_limit_per_bridge == self.bridge_config.gas_limit_per_bridge,
            r.emergency_pause == self.bridge_config.emergency_pause,
            r.metadata_preservation == self.bridge_config.metadata_preservation,
    {
        self.bridge_config.clone()
    }

    /// Pauses or unpauses the bridge. Administrator only.
    pub fn set_emergency_pause(&mut self, caller: AccountId, paused: bool) -> (r: Result<
        (),
        Error,
    >)
        requires
            old(self).wf(),
        ensures
            final(self).wf(),
            r == if caller != old(self).admin {
                Err::<(), Error>(Error::Unauthorized)
            } else {
                Ok::<(), Error>(())
            },
            caller != old(self).admin ==> *final(self) == *old(self),
            caller == old(self).admin ==> {
                &&& final(self).bridge_config.emergency_pause == paused
                &&& final(self).bridge_config.supported_chains
                    == old(self).bridge_config.supported_chains
                &&& final(self).bridge_config.min_signatures_required
                    == old(self).bridge_config.min_signatures_required
                &&& final(self).bridge_config.max_signatures_required
                    == old(self).bridge_config.max_signatures_required
                &&& final(self).bridge_config.default_timeout_blocks
                    == old(self).bridge_config.default_timeout_blocks
                &&& final(self).bridge_config.gas_limit_per_bridge
                    == old(self).bridge_config.gas_limit_per_bridge
                &&& final(self).bridge_config.metadata_preservation
                    == old(self).bridge_config.metadata_preservation
            },
            final(self).admin == old(self).admin,
            final(self).shares == old(self).shares,
            final(self).tokens == old(self).tokens,
            final(self).balances == old(self).balances,
            final(self).owner_token_count == old(self).owner_token_count,
            final(self).operator_approvals == old(self).operator_approvals,
            final(self).total_supply == old(self).total_supply,
            final(self).bridge_operators == old(self).bridge_operators,
            final(self).bridge_requests == old(self).bridge_requests,
            final(self).verified_hashes == old(self).verified_hashes,
            final(self).bridged_tokens == old(self).bridged_tokens,
            final(self).bridge_transactions == old(self).bridge_transactions,
    {
        if caller != self.admin {
            return Err(Error::Unauthorized);
        }
        self.bridge_config.emergency_pause = paused;
        Ok(())
    }

    /// Returns the total supply of live tokens.
    pub fn total_supply(&self) -> (r: u64)
        ensures
            r == self.total_supply,
    {
        self.total_supply
    }

    /// Returns the id of the most recently minted token.
    pub fn current_token_id(&self) -> (r: TokenId)
        ensures
            r == self.tokens@.len(),
    {
        self.tokens.len() as u64
    }

    /// Returns the administrator account.
    pub fn admin(&self) -> (r: AccountId)
        ensures
            r == self.admin,
    {
        self.admin
    }
}

} // verus!
