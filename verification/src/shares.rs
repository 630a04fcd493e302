use vstd::prelude::*;

use crate::account::AccountId;
use crate::bridge::PropertyToken;
use crate::bridge::pack_key;
use crate::bridge::spec_key;
use crate::types::Ask;
use crate::types::Error;
use crate::types::Proposal;
use crate::types::ProposalStatus;
use crate::types::TaxRecord;
use crate::types::TokenId;

verus! {

broadcast use vstd::std_specs::hash::group_hash_axioms;

/// The fixed-point scale dividends-per-share are stored at.
pub const DIVIDEND_SCALE: u128 = 1_000_000_000_000;

/// A sum that tops out at the largest representable value.
pub open spec fn spec_sat_add(a: u128, b: u128) -> u128 {
    if a + b > u128::MAX {
        u128::MAX
    } else {
        (a + b) as u128
    }
}

/// A sum of 64-bit values that tops out at the largest representable value.
pub open spec fn spec_sat_add_u64(a: u64, b: u64) -> u64 {
    if a + b > u64::MAX {
        u64::MAX
    } else {
        (a + b) as u64
    }
}

/// A product that tops out at the largest representable value.
pub open spec fn spec_sat_mul(a: u128, b: u128) -> u128 {
    if a * b > u128::MAX {
        u128::MAX
    } else {
        (a * b) as u128
    }
}

/// Multiplies, saturating at the largest representable value.
pub fn sat_mul(a: u128, b: u128) -> (r: u128)
    ensures
        r == spec_sat_mul(a, b),
{
    match a.checked_mul(b) {
        Some(p) => p,
        None => u128::MAX,
    }
}

/// A zeroed taxable-activity record.
pub open spec fn spec_empty_tax() -> TaxRecord {
    TaxRecord { dividends_received: 0, shares_sold: 0, proceeds: 0 }
}

/// The dividend books after crediting one holder: reading the holder's
/// entries out of the given maps, any dividends-per-share growth since the
/// last credit is turned into withdrawable balance at the holder's current
/// share balance. Returns the new (balance, credit) maps.
pub open spec fn spec_div_after(
    dbal: Map<u128, u128>,
    dcred: Map<u128, u128>,
    key: u128,
    share_bal: u128,
    dps: u128,
) -> (Map<u128, u128>, Map<u128, u128>) {
    let cred: u128 = if dcred.contains_key(key) {
        dcred[key]
    } else {
        0
    };
    let owed: u128 = if dbal.contains_key(key) {
        dbal[key]
    } else {
        0
    };
    if dps > cred {
        (
            dbal.insert(
                key,
                spec_sat_add(owed, spec_sat_mul(share_bal, (dps - cred) as u128) / DIVIDEND_SCALE),
            ),
            dcred.insert(key, dps),
        )
    } else {
        (dbal, dcred)
    }
}

impl PropertyToken {
    /// Issued shares of a token.
    pub open spec fn spec_total_shares(self, token_id: TokenId) -> u128 {
        if self.shares.total_shares@.contains_key(token_id) {
            self.shares.total_shares@[token_id]
        } else {
            0
        }
    }

    /// Accumulated dividends per share of a token, scaled by `DIVIDEND_SCALE`.
    pub open spec fn spec_dps(self, token_id: TokenId) -> u128 {
        if self.shares.dividends_per_share@.contains_key(token_id) {
            self.shares.dividends_per_share@[token_id]
        } else {
            0
        }
    }

    /// The dividends-per-share level an account was last credited at.
    pub open spec fn spec_dividend_credit(self, account: AccountId, token_id: TokenId) -> u128 {
        if self.shares.dividend_credit@.contains_key(spec_key(account, token_id)) {
            self.shares.dividend_credit@[spec_key(account, token_id)]
        } else {
            0
        }
    }

    /// The dividends an account can withdraw on a token.
    pub open spec fn spec_dividend_balance(self, account: AccountId, token_id: TokenId) -> u128 {
        if self.shares.dividend_balance@.contains_key(spec_key(account, token_id)) {
            self.shares.dividend_balance@[spec_key(account, token_id)]
        } else {
            0
        }
    }

    /// How many proposals a token has seen.
    pub open spec fn spec_proposal_count(self, token_id: TokenId) -> u64 {
        if self.shares.proposal_counter@.contains_key(token_id) {
            self.shares.proposal_counter@[token_id]
        } else {
            0
        }
    }

    /// The stored proposal, if any.
    pub open spec fn spec_proposal(self, token_id: TokenId, proposal_id: u64) -> Option<Proposal> {
        if self.shares.proposals@.contains_key(spec_key(token_id, proposal_id)) {
            Some(self.shares.proposals@[spec_key(token_id, proposal_id)])
        } else {
            None
        }
    }

    /// True when the account has already voted on the proposal.
    pub open spec fn spec_has_voted(
        self,
        token_id: TokenId,
        proposal_id: u64,
        account: AccountId,
    ) -> bool {
        self.shares.votes@.contains_key(spec_key(token_id, proposal_id))
            && self.shares.votes@[spec_key(token_id, proposal_id)]@.contains(account)
    }

    /// The open ask of a seller on a token, if any.
    pub open spec fn spec_ask(self, token_id: TokenId, seller: AccountId) -> Option<Ask> {
        if self.shares.asks@.contains_key(spec_key(token_id, seller)) {
            Some(self.shares.asks@[spec_key(token_id, seller)])
        } else {
            None
        }
    }

    /// Shares a seller has locked behind asks on a token.
    pub open spec fn spec_escrow(self, token_id: TokenId, seller: AccountId) -> u128 {
        if self.shares.escrowed_shares@.contains_key(spec_key(token_id, seller)) {
            self.shares.escrowed_shares@[spec_key(token_id, seller)]
        } else {
            0
        }
    }

    /// The latest trade price of a token, if any trade happened.
    pub open spec fn spec_last_price(self, token_id: TokenId) -> Option<u128> {
        if self.shares.last_trade_price@.contains_key(token_id) {
            Some(self.shares.last_trade_price@[token_id])
        } else {
            None
        }
    }

    /// The taxable activity of an account on a token.
    pub open spec fn spec_tax(self, account: AccountId, token_id: TokenId) -> TaxRecord {
        if self.shares.tax_records@.contains_key(spec_key(account, token_id)) {
            self.shares.tax_records@[spec_key(account, token_id)]
        } else {
            spec_empty_tax()
        }
    }

    /// True when the compliance gate accepts an account: either no registry
    /// is configured, or the registry reported the account compliant.
    pub open spec fn spec_compliance_passes(self, gate_answer: bool) -> bool {
        self.shares.compliance_registry is None || gate_answer
    }

    /// Configures the external compliance registry. Administrator only.
    pub fn set_compliance_registry(&mut self, caller: AccountId, registry: AccountId) -> (r:
        Result<(), Error>)
        requires
            old(self).wf(),
        ensures
            final(self).wf(),
            r == if caller != old(self).admin {
                Err::<(), Error>(Error::Unauthorized)
            } else {
                Ok::<(), Error>(())
            },
            caller != old(self).admin ==> *final(self) == *old(self),
            caller == old(self).admin ==> {
                &&& final(self).shares.compliance_registry == Some(registry)
                &&& final(self).shares.total_shares == old(self).shares.total_shares
                &&& final(self).shares.dividends_per_share == old(self).shares.dividends_per_share
                &&& final(self).shares.dividend_credit == old(self).shares.dividend_credit
                &&& final(self).shares.dividend_balance == old(self).shares.dividend_balance
                &&& final(self).shares.proposal_counter == old(self).shares.proposal_counter
                &&& final(self).shares.proposals == old(self).shares.proposals
                &&& final(self).shares.votes == old(self).shares.votes
                &&& final(self).shares.asks == old(self).shares.asks
                &&& final(self).shares.escrowed_shares == old(self).shares.escrowed_shares
                &&& final(self).shares.last_trade_price == old(self).shares.last_trade_price
                &&& final(self).shares.tax_records == old(self).shares.tax_records
            },
            final(self).admin == old(self).admin,
            final(self).tokens == old(self).tokens,
            final(self).balances == old(self).balances,
            final(self).owner_token_count == old(self).owner_token_count,
            final(self).operator_approvals == old(self).operator_approvals,
            final(self).total_supply == old(self).total_supply,
            final(self).bridge_config == old(self).bridge_config,
            final(self).bridge_operators == old(self).bridge_operators,
            final(self).bridge_requests == old(self).bridge_requests,
            final(self).verified_hashes == old(self).verified_hashes,
            final(self).bridged_tokens == old(self).bridged_tokens,
            final(self).bridge_transactions == old(self).bridge_transactions,
    {
        if caller != self.admin {
            return Err(Error::Unauthorized);
        }
        self.shares.compliance_registry = Some(registry);
        Ok(())
    }

    /// Returns the issued shares of a token.
    pub fn total_shares(&self, token_id: TokenId) -> (r: u128)
        ensures
            r == self.spec_total_shares(token_id),
    {
        match self.shares.total_shares.get(&token_id) {
            Some(v) => *v,
            None => 0,
        }
    }

    /// Returns the latest trade price of a token.
    pub fn get_last_trade_price(&self, token_id: TokenId) -> (r: Option<u128>)
        ensures
            r == self.spec_last_price(token_id),
    {
        match self.shares.last_trade_price.get(&token_id) {
            Some(v) => Some(*v),
            None => None,
        }
    }

    /// Returns the taxable activity of an account on a token.
    pub fn get_tax_record(&self, owner: AccountId, token_id: TokenId) -> (r: TaxRecord)
        ensures
            r == self.spec_tax(owner, token_id),
    {
        match self.shares.tax_records.get(&pack_key(owner, token_id)) {
            Some(v) => *v,
            None => TaxRecord { dividends_received: 0, shares_sold: 0, proceeds: 0 },
        }
    }

    /// Returns the balance and latest price of each listed token for an
    /// owner.
    pub fn get_portfolio(&self, owner: AccountId, token_ids: Vec<TokenId>) -> (r: Vec<
        (TokenId, u128, u128),
    >)
        ensures
            r@.len() == token_ids@.len(),
            forall|i: int|
                0 <= i < token_ids@.len() ==> r@[i] == (
                token_ids@[i],
                self.spec_balance(owner, token_ids@[i]),
                match self.spec_last_price(token_ids@[i]) {
                    Some(p) => p,
                    None => 0u128,
                },
            ),
    {
        let mut out: Vec<(TokenId, u128, u128)> = Vec::new();
        let mut i: usize = 0;
        while i < token_ids.len()
            invariant
                0 <= i <= token_ids@.len(),
                out@.len() == i,
                forall|j: int|
                    0 <= j < i ==> out@[j] == (
                    token_ids@[j],
                    self.spec_balance(owner, token_ids@[j]),
                    match self.spec_last_price(token_ids@[j]) {
                        Some(p) => p,
                        None => 0u128,
                    },
                ),
            decreases token_ids@.len() - i,
        {
            let t = token_ids[i];
            let bal = self.share_balance_of(owner, t);
            let price = match self.get_last_trade_price(t) {
                Some(p) => p,
                None => 0,
            };
            out.push((t, bal, price));
            i = i + 1;
        }
        out
    }

    /// Brings one holder's dividend credit up to date on one token, moving
    /// accrued dividends into the withdrawable balance.
    fn update_dividend_credit_on_change(&mut self, account: AccountId, token_id: TokenId)
        ensures
            ({
                let pair = spec_div_after(
                    old(self).shares.dividend_balance@,
                    old(self).shares.dividend_credit@,
                    spec_key(account, token_id),
                    old(self).spec_balance(account, token_id),
                    old(self).spec_dps(token_id),
                );
                final(self).shares.dividend_balance@ == pair.0
                    && final(self).shares.dividend_credit@ == pair.1
            }),
            final(self).shares.compliance_registry == old(self).shares.compliance_registry,
            final(self).shares.total_shares == old(self).shares.total_shares,
            final(self).shares.dividends_per_share == old(self).shares.dividends_per_share,
            final(self).shares.proposal_counter == old(self).shares.proposal_counter,
            final(self).shares.proposals == old(self).shares.proposals,
            final(self).shares.votes == old(self).shares.votes,
            final(self).shares.asks == old(self).shares.asks,
            final(self).shares.escrowed_shares == old(self).shares.escrowed_shares,
            final(self).shares.last_trade_price == old(self).shares.last_trade_price,
            final(self).shares.tax_records == old(self).shares.tax_records,
            final(self).admin == old(self).admin,
            final(self).tokens == old(self).tokens,
            final(self).balances == old(self).balances,
            final(self).owner_token_count == old(self).owner_token_count,
            final(self).operator_approvals == old(self).operator_approvals,
            final(self).total_supply == old(self).total_supply,
            final(self).bridge_config == old(self).bridge_config,
            final(self).bridge_operators == old(self).bridge_operators,
            final(self).bridge_requests == old(self).bridge_requests,
            final(self).verified_hashes == old(self).verified_hashes,
            final(self).bridged_tokens == old(self).bridged_tokens,
            final(self).bridge_transactions == old(self).bridge_transactions,
    {
        let key = pack_key(account, token_id);
        let dps = match self.shares.dividends_per_share.get(&token_id) {
            Some(v) => *v,
            None => 0,
        };
        let credited = match self.shares.dividend_credit.get(&key) {
            Some(v) => *v,
            None => 0,
        };
        if dps > credited {
            let bal = self.share_balance_of(account, token_id);
            let owed = match self.shares.dividend_balance.get(&key) {
                Some(v) => *v,
                None => 0,
            };
            let delta = dps - credited;
            let add = sat_mul(bal, delta) / DIVIDEND_SCALE;
            let new_owed = owed.saturating_add(add);
            self.shares.dividend_balance.insert(key, new_owed);
            self.shares.dividend_credit.insert(key, dps);
        }
    }

    /// The outcome `issue_shares` owes: a positive amount, a live token, and
    /// only the administrator or the token's holder may issue.
    pub open spec fn issue_shares_outcome(
        s: PropertyToken,
        caller: AccountId,
        token_id: TokenId,
        amount: u128,
    ) -> Result<(), Error> {
        if amount == 0 {
            Err(Error::InvalidAmount)
        } else if s.spec_owner_of(token_id) is None {
            Err(Error::TokenNotFound)
        } else if caller != s.admin && Some(caller) != s.spec_owner_of(token_id) {
            Err(Error::Unauthorized)
        } else {
            Ok(())
        }
    }

    /// Issues shares of a token to an account, saturating the balances, and
    /// brings the recipient's dividend credit up to date on the grown
    /// balance.
    pub fn issue_shares(
        &mut self,
        caller: AccountId,
        token_id: TokenId,
        to: AccountId,
        amount: u128,
    ) -> (r: Result<(), Error>)
        requires
            old(self).wf(),
        ensures
            final(self).wf(),
            r == Self::issue_shares_outcome(*old(self), caller, token_id, amount),
            r is Err ==> *final(self) == *old(self),
            r is Ok ==> {
                let new_bal = spec_sat_add(old(self).spec_balance(to, token_id), amount);
                let pair = spec_div_after(
                    old(self).shares.dividend_balance@,
                    old(self).shares.dividend_credit@,
                    spec_key(to, token_id),
                    new_bal,
                    old(self).spec_dps(token_id),
                );
                &&& final(self).balances@ == old(self).balances@.insert(
                    spec_key(to, token_id),
                    new_bal,
                )
                &&& final(self).spec_balance(to, token_id) == new_bal
                &&& final(self).shares.total_shares@ == old(self).shares.total_shares@.insert(
                    token_id,
                    spec_sat_add(old(self).spec_total_shares(token_id), amount),
                )
                &&& final(self).shares.dividend_balance@ == pair.0
                &&& final(self).shares.dividend_credit@ == pair.1
            },
            final(self).admin == old(self).admin,
            final(self).shares.compliance_registry == old(self).shares.compliance_registry,
            final(self).shares.dividends_per_share == old(self).shares.dividends_per_share,
            final(self).shares.proposal_counter == old(self).shares.proposal_counter,
            final(self).shares.proposals == old(self).shares.proposals,
            final(self).shares.votes == old(self).shares.votes,
            final(self).shares.asks == old(self).shares.asks,
            final(self).shares.escrowed_shares == old(self).shares.escrowed_shares,
            final(self).shares.last_trade_price == old(self).shares.last_trade_price,
            final(self).shares.tax_records == old(self).shares.tax_records,
            final(self).tokens == old(self).tokens,
            final(self).owner_token_count == old(self).owner_token_count,
            final(self).operator_approvals == old(self).operator_approvals,
            final(self).total_supply == old(self).total_supply,
            final(self).bridge_config == old(self).bridge_config,
            final(self).bridge_operators == old(self).bridge_operators,
            final(self).bridge_requests == old(self).bridge_requests,
            final(self).verified_hashes == old(self).verified_hashes,
            final(self).bridged_tokens == old(self).bridged_tokens,
            final(self).bridge_transactions == old(self).bridge_transactions,
    {
        if amount == 0 {
            return Err(Error::InvalidAmount);
        }
        let owner = match self.owner_of(token_id) {
            None => {
                return Err(Error::TokenNotFound);
            },
            Some(o) => o,
        };
        if caller != self.admin && caller != owner {
            return Err(Error::Unauthorized);
        }
        let key = pack_key(to, token_id);
        let bal = self.share_balance_of(to, token_id);
        self.balances.insert(key, bal.saturating_add(amount));
        let ts = self.total_shares(token_id);
        self.shares.total_shares.insert(token_id, ts.saturating_add(amount));
        self.update_dividend_credit_on_change(to, token_id);
        proof {
            assert forall|i: int|
                0 <= i < self.bridge_requests@.len() && (#[trigger] self.bridge_requests@[i]).status
                    == crate::types::BridgeOperationStatus::Locked implies self.spec_owner_of(
                self.bridge_requests@[i].token_id,
            ) == Some(crate::account::SENTINEL) by {
                assert(old(self).spec_owner_of(self.bridge_requests@[i].token_id) == Some(
                    crate::account::SENTINEL,
                ));
            }
        }
        Ok(())
    }

    /// The outcome `redeem_shares` owes: a positive amount, authority over
    /// `from`, and enough balance.
    pub open spec fn redeem_shares_outcome(
        s: PropertyToken,
        caller: AccountId,
        token_id: TokenId,
        from: AccountId,
        amount: u128,
    ) -> Result<(), Error> {
        if amount == 0 {
            Err(Error::InvalidAmount)
        } else if caller != from && !s.spec_approved_for_all(from, caller) {
            Err(Error::Unauthorized)
        } else if s.spec_balance(from, token_id) < amount {
            Err(Error::InsufficientBalance)
        } else {
            Ok(())
        }
    }

    /// Redeems shares of a token from an account, and brings the account's
    /// dividend credit up to date on the shrunk balance.
    pub fn redeem_shares(
        &mut self,
        caller: AccountId,
        token_id: TokenId,
        from: AccountId,
        amount: u128,
    ) -> (r: Result<(), Error>)
        requires
            old(self).wf(),
        ensures
            final(self).wf(),
            r == Self::redeem_shares_outcome(*old(self), caller, token_id, from, amount),
            r is Err ==> *final(self) == *old(self),
            r is Ok ==> {
                let new_bal = (old(self).spec_balance(from, token_id) - amount) as u128;
                let pair = spec_div_after(
                    old(self).shares.dividend_balance@,
                    old(self).shares.dividend_credit@,
                    spec_key(from, token_id),
                    new_bal,
                    old(self).spec_dps(token_id),
                );
                &&& final(self).balances@ == old(self).balances@.insert(
                    spec_key(from, token_id),
                    new_bal,
                )
                &&& final(self).shares.total_shares@ == old(self).shares.total_shares@.insert(
                    token_id,
                    (if old(self).spec_total_shares(token_id) >= amount {
                        (old(self).spec_total_shares(token_id) - amount) as u128
                    } else {
                        0u128
                    }),
                )
                &&& final(self).shares.dividend_balance@ == pair.0
                &&& final(self).shares.dividend_credit@ == pair.1
            },
            final(self).admin == old(self).admin,
            final(self).shares.compliance_registry == old(self).shares.compliance_registry,
            final(self).shares.dividends_per_share == old(self).shares.dividends_per_share,
            final(self).shares.proposal_counter == old(self).shares.proposal_counter,
            final(self).shares.proposals == old(self).shares.proposals,
            final(self).shares.votes == old(self).shares.votes,
            final(self).shares.asks == old(self).shares.asks,
            final(self).shares.escrowed_shares == old(self).shares.escrowed_shares,
            final(self).shares.last_trade_price == old(self).shares.last_trade_price,
            final(self).shares.tax_records == old(self).shares.tax_records,
            final(self).tokens == old(self).tokens,
            final(self).owner_token_count == old(self).owner_token_count,
            final(self).operator_approvals == old(self).operator_approvals,
            final(self).total_supply == old(self).total_supply,
            final(self).bridge_config == old(self).bridge_config,
            final(self).bridge_operators == old(self).bridge_operators,
            final(self).bridge_requests == old(self).bridge_requests,
            final(self).verified_hashes == old(self).verified_hashes,
            final(self).bridged_tokens == old(self).bridged_tokens,
            final(self).bridge_transactions == old(self).bridge_transactions,
    {
        if amount == 0 {
            return Err(Error::InvalidAmount);
        }
        if caller != from && !self.is_approved_for_all(from, caller) {
            return Err(Error::Unauthorized);
        }
        let bal = self.share_balance_of(from, token_id);
        if bal < amount {
            return Err(Error::InsufficientBalance);
        }
        let key = pack_key(from, token_id);
        self.balances.insert(key, bal - amount);
        let ts = self.total_shares(token_id);
        self.shares.total_shares.insert(token_id, ts.saturating_sub(amount));
        self.update_dividend_credit_on_change(from, token_id);
        proof {
            assert forall|i: int|
                0 <= i < self.bridge_requests@.len() && (#[trigger] self.bridge_requests@[i]).status
                    == crate::types::BridgeOperationStatus::Locked implies self.spec_owner_of(
                self.bridge_requests@[i].token_id,
            ) == Some(crate::account::SENTINEL) by {
                assert(old(self).spec_owner_of(self.bridge_requests@[i].token_id) == Some(
                    crate::account::SENTINEL,
                ));
            }
        }
        Ok(())
    }

    /// The outcome `transfer_shares` owes: a positive amount, authority over
    /// `from`, both parties accepted by the compliance gate (when one is
    /// configured), and enough balance. The two flags carry what the
    /// external compliance registry reported for `from` and `to`.
    pub open spec fn transfer_shares_outcome(
        s: PropertyToken,
        caller: AccountId,
        from: AccountId,
        to: AccountId,
        token_id: TokenId,
        amount: u128,
        from_compliant: bool,
        to_compliant: bool,
    ) -> Result<(), Error> {
        if amount == 0 {
            Err(Error::InvalidAmount)
        } else if caller != from && !s.spec_approved_for_all(from, caller) {
            Err(Error::Unauthorized)
        } else if !(s.spec_compliance_passes(from_compliant) && s.spec_compliance_passes(
            to_compliant,
        )) {
            Err(Error::ComplianceFailed)
        } else if s.spec_balance(from, token_id) < amount {
            Err(Error::InsufficientBalance)
        } else {
            Ok(())
        }
    }

    /// Moves shares between accounts. Both holders' dividend credits are
    /// brought up to date on their balances before the move, so the accrued
    /// dividends follow the old holdings. `from_compliant` and `to_compliant`
    /// carry what the external compliance registry reported for the two
    /// accounts; they are ignored when no registry is configured.
    pub fn transfer_shares(
        &mut self,
        caller: AccountId,
        from: AccountId,
        to: AccountId,
        token_id: TokenId,
        amount: u128,
        from_compliant: bool,
        to_compliant: bool,
    ) -> (r: Result<(), Error>)
        requires
            old(self).wf(),
        ensures
            final(self).wf(),
            r == Self::transfer_shares_outcome(
                *old(self),
                caller,
                from,
                to,
                token_id,
                amount,
                from_compliant,
                to_compliant,
            ),
            r is Err ==> *final(self) == *old(self),
            r is Ok ==> {
                let pair1 = spec_div_after(
                    old(self).shares.dividend_balance@,
                    old(self).shares.dividend_credit@,
                    spec_key(from, token_id),
                    old(self).spec_balance(from, token_id),
                    old(self).spec_dps(token_id),
                );
                let pair2 = spec_div_after(
                    pair1.0,
                    pair1.1,
                    spec_key(to, token_id),
                    old(self).spec_balance(to, token_id),
                    old(self).spec_dps(token_id),
                );
                let from_bal = (old(self).spec_balance(from, token_id) - amount) as u128;
                &&& final(self).shares.dividend_balance@ == pair2.0
                &&& final(self).shares.dividend_credit@ == pair2.1
                &&& final(self).balances@ == old(self).balances@.insert(
                    spec_key(from, token_id),
                    from_bal,
                ).insert(
                    spec_key(to, token_id),
                    (if to == from {
                        spec_sat_add(from_bal, amount)
                    } else {
                        spec_sat_add(old(self).spec_balance(to, token_id), amount)
                    }),
                )
                &&& to != from ==> final(self).spec_balance(from, token_id) == old(
                    self,
                ).spec_balance(from, token_id) - amount
                &&& to != from ==> final(self).spec_balance(to, token_id) == spec_sat_add(
                    old(self).spec_balance(to, token_id),
                    amount,
                )
            },
            final(self).admin == old(self).admin,
            final(self).shares.compliance_registry == old(self).shares.compliance_registry,
            final(self).shares.total_shares == old(self).shares.total_shares,
            final(self).shares.dividends_per_share == old(self).shares.dividends_per_share,
            final(self).shares.proposal_counter == old(self).shares.proposal_counter,
            final(self).shares.proposals == old(self).shares.proposals,
            final(self).shares.votes == old(self).shares.votes,
            final(self).shares.asks == old(self).shares.asks,
            final(self).shares.escrowed_shares == old(self).shares.escrowed_shares,
            final(self).shares.last_trade_price == old(self).shares.last_trade_price,
            final(self).shares.tax_records == old(self).shares.tax_records,
            final(self).tokens == old(self).tokens,
            final(self).owner_token_count == old(self).owner_token_count,
            final(self).operator_approvals == old(self).operator_approvals,
            final(self).total_supply == old(self).total_supply,
            final(self).bridge_config == old(self).bridge_config,
            final(self).bridge_operators == old(self).bridge_operators,
            final(self).bridge_requests == old(self).bridge_requests,
            final(self).verified_hashes == old(self).verified_hashes,
            final(self).bridged_tokens == old(self).bridged_tokens,
            final(self).bridge_transactions == old(self).bridge_transactions,
    {
        if amount == 0 {
            return Err(Error::InvalidAmount);
        }
        if caller != from && !self.is_approved_for_all(from, caller) {
            return Err(Error::Unauthorized);
        }
        let gate_open = self.shares.compliance_registry.is_none();
        if !((gate_open || from_compliant) && (gate_open || to_compliant)) {
            return Err(Error::ComplianceFailed);
        }
        let from_balance = self.share_balance_of(from, token_id);
        if from_balance < amount {
            return Err(Error::InsufficientBalance);
        }
        self.update_dividend_credit_on_change(from, token_id);
        self.update_dividend_credit_on_change(to, token_id);
        let key_from = pack_key(from, token_id);
        self.balances.insert(key_from, from_balance - amount);
        let to_balance = self.share_balance_of(to, token_id);
        let key_to = pack_key(to, token_id);
        self.balances.insert(key_to, to_balance.saturating_add(amount));
        proof {
            assert forall|i: int|
                0 <= i < self.bridge_requests@.len() && (#[trigger] self.bridge_requests@[i]).status
                    == crate::types::BridgeOperationStatus::Locked implies self.spec_owner_of(
                self.bridge_requests@[i].token_id,
            ) == Some(crate::account::SENTINEL) by {
                assert(old(self).spec_owner_of(self.bridge_requests@[i].token_id) == Some(
                    crate::account::SENTINEL,
                ));
            }
        }
        Ok(())
    }

    /// The outcome `deposit_dividends` owes: a positive deposit on a token
    /// with issued shares.
    pub open spec fn deposit_dividends_outcome(
        s: PropertyToken,
        token_id: TokenId,
        value: u128,
    ) -> Result<(), Error> {
        if value == 0 {
            Err(Error::InvalidAmount)
        } else if s.spec_total_shares(token_id) == 0 {
            Err(Error::InvalidRequest)
        } else {
            Ok(())
        }
    }

    /// Deposits dividends on a token: the paid value, spread over the issued
    /// shares at the fixed-point scale, raises the dividends-per-share
    /// accumulator. `value` is the amount paid in with the call.
    pub fn deposit_dividends(&mut self, token_id: TokenId, value: u128) -> (r: Result<(), Error>)
        requires
            old(self).wf(),
        ensures
            final(self).wf(),
            r == Self::deposit_dividends_outcome(*old(self), token_id, value),
            r is Err ==> *final(self) == *old(self),
            r is Ok ==> final(self).shares.dividends_per_share@ == old(
                self,
            ).shares.dividends_per_share@.insert(
                token_id,
                spec_sat_add(
                    old(self).spec_dps(token_id),
                    spec_sat_mul(value, DIVIDEND_SCALE) / old(self).spec_total_shares(token_id),
                ),
            ),
            final(self).admin == old(self).admin,
            final(self).shares.compliance_registry == old(self).shares.compliance_registry,
            final(self).shares.total_shares == old(self).shares.total_shares,
            final(self).shares.dividend_credit == old(self).shares.dividend_credit,
            final(self).shares.dividend_balance == old(self).shares.dividend_balance,
            final(self).shares.proposal_counter == old(self).shares.proposal_counter,
            final(self).shares.proposals == old(self).shares.proposals,
            final(self).shares.votes == old(self).shares.votes,
            final(self).shares.asks == old(self).shares.asks,
            final(self).shares.escrowed_shares == old(self).shares.escrowed_shares,
            final(self).shares.last_trade_price == old(self).shares.last_trade_price,
            final(self).shares.tax_records == old(self).shares.tax_records,
            final(self).tokens == old(self).tokens,
            final(self).balances == old(self).balances,
            final(self).owner_token_count == old(self).owner_token_count,
            final(self).operator_approvals == old(self).operator_approvals,
            final(self).total_supply == old(self).total_supply,
            final(self).bridge_config == old(self).bridge_config,
            final(self).bridge_operators == old(self).bridge_operators,
            final(self).bridge_requests == old(self).bridge_requests,
            final(self).verified_hashes == old(self).verified_hashes,
            final(self).bridged_tokens == old(self).bridged_tokens,
            final(self).bridge_transactions == old(self).bridge_transactions,
    {
        if value == 0 {
            return Err(Error::InvalidAmount);
        }
        let ts = self.total_shares(token_id);
        if ts == 0 {
            return Err(Error::InvalidRequest);
        }
        let add = sat_mul(value, DIVIDEND_SCALE) / ts;
        let cur = match self.shares.dividends_per_share.get(&token_id) {
            Some(v) => *v,
            None => 0,
        };
        self.shares.dividends_per_share.insert(token_id, cur.saturating_add(add));
        Ok(())
    }

    /// Brings the caller's dividend credit up to date, zeroes the
    /// withdrawable balance, records the amount as received dividends in the
    /// caller's tax record, and returns the amount owed. Paying the amount
    /// out is the surrounding ledger's part.
    pub fn withdraw_dividends(&mut self, caller: AccountId, token_id: TokenId) -> (r: Result<
        u128,
        Error,
    >)
        requires
            old(self).wf(),
        ensures
            final(self).wf(),
            ({
                let pair = spec_div_after(
                    old(self).shares.dividend_balance@,
                    old(self).shares.dividend_credit@,
                    spec_key(caller, token_id),
                    old(self).spec_balance(caller, token_id),
                    old(self).spec_dps(token_id),
                );
                let owed: u128 = if pair.0.contains_key(spec_key(caller, token_id)) {
                    pair.0[spec_key(caller, token_id)]
                } else {
                    0
                };
                &&& r == Ok::<u128, Error>(owed)
                &&& final(self).shares.dividend_credit@ == pair.1
                &&& owed == 0 ==> final(self).shares.dividend_balance@ == pair.0
                    && final(self).shares.tax_records == old(self).shares.tax_records
                &&& owed > 0 ==> {
                    &&& final(self).shares.dividend_balance@ == pair.0.insert(
                        spec_key(caller, token_id),
                        0u128,
                    )
                    &&& final(self).shares.tax_records@ == old(self).shares.tax_records@.insert(
                        spec_key(caller, token_id),
                        (TaxRecord {
                            dividends_received: spec_sat_add(
                                old(self).spec_tax(caller, token_id).dividends_received,
                                owed,
                            ),
                            ..old(self).spec_tax(caller, token_id)
                        }),
                    )
                }
            }),
            final(self).admin == old(self).admin,
            final(self).shares.compliance_registry == old(self).shares.compliance_registry,
            final(self).shares.total_shares == old(self).shares.total_shares,
            final(self).shares.dividends_per_share == old(self).shares.dividends_per_share,
            final(self).shares.proposal_counter == old(self).shares.proposal_counter,
            final(self).shares.proposals == old(self).shares.proposals,
            final(self).shares.votes == old(self).shares.votes,
            final(self).shares.asks == old(self).shares.asks,
            final(self).shares.escrowed_shares == old(self).shares.escrowed_shares,
            final(self).shares.last_trade_price == old(self).shares.last_trade_price,
            final(self).tokens == old(self).tokens,
            final(self).balances == old(self).balances,
            final(self).owner_token_count == old(self).owner_token_count,
            final(self).operator_approvals == old(self).operator_approvals,
            final(self).total_supply == old(self).total_supply,
            final(self).bridge_config == old(self).bridge_config,
            final(self).bridge_operators == old(self).bridge_operators,
            final(self).bridge_requests == old(self).bridge_requests,
            final(self).verified_hashes == old(self).verified_hashes,
            final(self).bridged_tokens == old(self).bridged_tokens,
            final(self).bridge_transactions == old(self).bridge_transactions,
    {
        self.update_dividend_credit_on_change(caller, token_id);
        let key = pack_key(caller, token_id);
        let owed = match self.shares.dividend_balance.get(&key) {
            Some(v) => *v,
            None => 0,
        };
        if owed == 0 {
            return Ok(0);
        }
        self.shares.dividend_balance.insert(key, 0);
        let mut rec = self.get_tax_record(caller, token_id);
        rec.dividends_received = rec.dividends_received.saturating_add(owed);
        self.shares.tax_records.insert(key, rec);
        proof {
            assert forall|i: int|
                0 <= i < self.bridge_requests@.len() && (#[trigger] self.bridge_requests@[i]).status
                    == crate::types::BridgeOperationStatus::Locked implies self.spec_owner_of(
                self.bridge_requests@[i].token_id,
            ) == Some(crate::account::SENTINEL) by {
                assert(old(self).spec_owner_of(self.bridge_requests@[i].token_id) == Some(
                    crate::account::SENTINEL,
                ));
            }
        }
        Ok(owed)
    }

    /// The outcome `create_proposal` owes: a live token, and only the
    /// administrator or the holder may open one.
    pub open spec fn create_proposal_outcome(
        s: PropertyToken,
        caller: AccountId,
        token_id: TokenId,
    ) -> Result<u64, Error> {
        if s.spec_owner_of(token_id) is None {
            Err(Error::TokenNotFound)
        } else if caller != s.admin && Some(caller) != s.spec_owner_of(token_id) {
            Err(Error::Unauthorized)
        } else {
            Ok((s.spec_proposal_count(token_id) + 1) as u64)
        }
    }

    /// Opens a governance proposal on a token's shares, numbered from one
    /// per token.
    pub fn create_proposal(
        &mut self,
        caller: AccountId,
        timestamp: u64,
        token_id: TokenId,
        quorum: u128,
        description_hash: crate::hash::TxHash,
    ) -> (r: Result<u64, Error>)
        requires
            old(self).wf(),
            Self::create_proposal_outcome(*old(self), caller, token_id) is Ok ==> old(
                self,
            ).spec_proposal_count(token_id) < u64::MAX,
        ensures
            final(self).wf(),
            r == Self::create_proposal_outcome(*old(self), caller, token_id),
            r is Err ==> *final(self) == *old(self),
            r is Ok ==> {
                let id = (old(self).spec_proposal_count(token_id) + 1) as u64;
                &&& final(self).shares.proposal_counter@ == old(
                    self,
                ).shares.proposal_counter@.insert(token_id, id)
                &&& final(self).shares.proposals@ == old(self).shares.proposals@.insert(
                    spec_key(token_id, id),
                    (Proposal {
                        id,
                        token_id,
                        description_hash,
                        quorum,
                        for_votes: 0,
                        against_votes: 0,
                        status: ProposalStatus::Open,
                        created_at: timestamp,
                    }),
                )
                &&& final(self).spec_proposal(token_id, id) is Some
            },
            final(self).admin == old(self).admin,
            final(self).shares.compliance_registry == old(self).shares.compliance_registry,
            final(self).shares.total_shares == old(self).shares.total_shares,
            final(self).shares.dividends_per_share == old(self).shares.dividends_per_share,
            final(self).shares.dividend_credit == old(self).shares.dividend_credit,
            final(self).shares.dividend_balance == old(self).shares.dividend_balance,
            final(self).shares.votes == old(self).shares.votes,
            final(self).shares.asks == old(self).shares.asks,
            final(self).shares.escrowed_shares == old(self).shares.escrowed_shares,
            final(self).shares.last_trade_price == old(self).shares.last_trade_price,
            final(self).shares.tax_records == old(self).shares.tax_records,
            final(self).tokens == old(self).tokens,
            final(self).balances == old(self).balances,
            final(self).owner_token_count == old(self).owner_token_count,
            final(self).operator_approvals == old(self).operator_approvals,
            final(self).total_supply == old(self).total_supply,
            final(self).bridge_config == old(self).bridge_config,
            final(self).bridge_operators == old(self).bridge_operators,
            final(self).bridge_requests == old(self).bridge_requests,
            final(self).verified_hashes == old(self).verified_hashes,
            final(self).bridged_tokens == old(self).bridged_tokens,
            final(self).bridge_transactions == old(self).bridge_transactions,
    {
        let owner = match self.owner_of(token_id) {
            None => {
                return Err(Error::TokenNotFound);
            },
            Some(o) => o,
        };
        if caller != self.admin && caller != owner {
            return Err(Error::Unauthorized);
        }
        let counter = match self.shares.proposal_counter.get(&token_id) {
            Some(c) => *c,
            None => 0,
        } + 1;
        self.shares.proposal_counter.insert(token_id, counter);
        let proposal = Proposal {
            id: counter,
            token_id,
            description_hash,
            quorum,
            for_votes: 0,
            against_votes: 0,
            status: ProposalStatus::Open,
            created_at: timestamp,
        };
        let key = pack_key(token_id, counter);
        self.shares.proposals.insert(key, proposal);
        Ok(counter)
    }

    /// The outcome `vote` owes: the proposal must exist and be open, and an
    /// account votes at most once.
    pub open spec fn vote_outcome(
        s: PropertyToken,
        caller: AccountId,
        token_id: TokenId,
        proposal_id: u64,
    ) -> Result<(), Error> {
        if s.spec_proposal(token_id, proposal_id) is None {
            Err(Error::ProposalNotFound)
        } else if s.spec_proposal(token_id, proposal_id)->Some_0.status != ProposalStatus::Open {
            Err(Error::ProposalClosed)
        } else if s.spec_has_voted(token_id, proposal_id, caller) {
            Err(Error::Unauthorized)
        } else {
            Ok(())
        }
    }

    /// Casts one vote, weighted by the voter's share balance at the time of
    /// the call.
    pub fn vote(
        &mut self,
        caller: AccountId,
        token_id: TokenId,
        proposal_id: u64,
        support: bool,
    ) -> (r: Result<(), Error>)
        requires
            old(self).wf(),
        ensures
            final(self).wf(),
            r == Self::vote_outcome(*old(self), caller, token_id, proposal_id),
            r is Err ==> *final(self) == *old(self),
            r is Ok ==> {
                let p = old(self).spec_proposal(token_id, proposal_id)->Some_0;
                let w = old(self).spec_balance(caller, token_id);
                &&& final(self).shares.proposals@ == old(self).shares.proposals@.insert(
                    spec_key(token_id, proposal_id),
                    (if support {
                        Proposal { for_votes: spec_sat_add(p.for_votes, w), ..p }
                    } else {
                        Proposal { against_votes: spec_sat_add(p.against_votes, w), ..p }
                    }),
                )
                &&& final(self).spec_has_voted(token_id, proposal_id, caller)
                &&& forall|a: AccountId|
                    a != caller ==> #[trigger] final(self).spec_has_voted(
                        token_id,
                        proposal_id,
                        a,
                    ) == old(self).spec_has_voted(token_id, proposal_id, a)
            },
            final(self).admin == old(self).admin,
            final(self).shares.compliance_registry == old(self).shares.compliance_registry,
            final(self).shares.total_shares == old(self).shares.total_shares,
            final(self).shares.dividends_per_share == old(self).shares.dividends_per_share,
            final(self).shares.dividend_credit == old(self).shares.dividend_credit,
            final(self).shares.dividend_balance == old(self).shares.dividend_balance,
            final(self).shares.proposal_counter == old(self).shares.proposal_counter,
            final(self).shares.asks == old(self).shares.asks,
            final(self).shares.escrowed_shares == old(self).shares.escrowed_shares,
            final(self).shares.last_trade_price == old(self).shares.last_trade_price,
            final(self).shares.tax_records == old(self).shares.tax_records,
            final(self).tokens == old(self).tokens,
            final(self).balances == old(self).balances,
            final(self).owner_token_count == old(self).owner_token_count,
            final(self).operator_approvals == old(self).operator_approvals,
            final(self).total_supply == old(self).total_supply,
            final(self).bridge_config == old(self).bridge_config,
            final(self).bridge_operators == old(self).bridge_operators,
            final(self).bridge_requests == old(self).bridge_requests,
            final(self).verified_hashes == old(self).verified_hashes,
            final(self).bridged_tokens == old(self).bridged_tokens,
            final(self).bridge_transactions == old(self).bridge_transactions,
    {
        let key = pack_key(token_id, proposal_id);
        let proposal = match self.shares.proposals.get(&key) {
            None => {
                return Err(Error::ProposalNotFound);
            },
            Some(p) => *p,
        };
        if proposal.status != ProposalStatus::Open {
            return Err(Error::ProposalClosed);
        }
        let voted = match self.shares.votes.get(&key) {
            None => false,
            Some(vs) => {
                let ghost old_voters = vs@;
                let mut found = false;
                let mut i: usize = 0;
                while i < vs.len()
                    invariant
                        vs@ == old_voters,
                        0 <= i <= old_voters.len(),
                        found == exists|j: int| 0 <= j < i && old_voters[j] == caller,
                    decreases old_voters.len() - i,
                {
                    if vs[i] == caller {
                        proof {
                            assert(0 <= i < old_voters.len() && old_voters[i as int] == caller);
                        }
                        found = true;
                    }
                    i = i + 1;
                }
                proof {
                    assert(found == old_voters.contains(caller));
                }
                found
            },
        };
        if voted {
            return Err(Error::Unauthorized);
        }
        let mut voters = match self.shares.votes.remove(&key) {
            Some(v) => v,
            None => Vec::new(),
        };
        let ghost old_voters = voters@;
        let weight = self.share_balance_of(caller, token_id);
        let updated = if support {
            Proposal { for_votes: proposal.for_votes.saturating_add(weight), ..proposal }
        } else {
            Proposal { against_votes: proposal.against_votes.saturating_add(weight), ..proposal }
        };
        self.shares.proposals.insert(key, updated);
        voters.push(caller);
        self.shares.votes.insert(key, voters);
        proof {
            assert(final(self).spec_has_voted(token_id, proposal_id, caller)) by {
                assert(self.shares.votes@[key]@[old_voters.len() as int] == caller);
            }
            assert forall|a: AccountId|
                a != caller implies #[trigger] self.spec_has_voted(token_id, proposal_id, a) == old(
                self,
            ).spec_has_voted(token_id, proposal_id, a) by {
                if old(self).spec_has_voted(token_id, proposal_id, a) {
                    let j = choose|j: int| 0 <= j < old_voters.len() && old_voters[j] == a;
                    assert(self.shares.votes@[key]@[j] == a);
                }
                if self.spec_has_voted(token_id, proposal_id, a) {
                    let j = choose|j: int|
                        0 <= j < self.shares.votes@[key]@.len() && self.shares.votes@[key]@[j] == a;
                    assert(j < old_voters.len());
                    assert(old_voters[j] == a);
                    if !old(self).shares.votes@.contains_key(key) {
                        assert(old_voters.len() == 0);
                    }
                }
            }
        }
        Ok(())
    }

    /// The outcome `execute_proposal` owes: the proposal must exist and be
    /// open; it passes when the approvals reach the quorum and outnumber the
    /// rejections.
    pub open spec fn execute_proposal_outcome(
        s: PropertyToken,
        token_id: TokenId,
        proposal_id: u64,
    ) -> Result<bool, Error> {
        if s.spec_proposal(token_id, proposal_id) is None {
            Err(Error::ProposalNotFound)
        } else if s.spec_proposal(token_id, proposal_id)->Some_0.status != ProposalStatus::Open {
            Err(Error::ProposalClosed)
        } else {
            let p = s.spec_proposal(token_id, proposal_id)->Some_0;
            Ok(p.for_votes >= p.quorum && p.for_votes > p.against_votes)
        }
    }

    /// Closes an open proposal: it becomes `Executed` when it passed and
    /// `Rejected` otherwise, and the verdict is returned.
    pub fn execute_proposal(&mut self, token_id: TokenId, proposal_id: u64) -> (r: Result<
        bool,
        Error,
    >)
        requires
            old(self).wf(),
        ensures
            final(self).wf(),
            r == Self::execute_proposal_outcome(*old(self), token_id, proposal_id),
            r is Err ==> *final(self) == *old(self),
            r matches Ok(passed) ==> {
                let p = old(self).spec_proposal(token_id, proposal_id)->Some_0;
                final(self).shares.proposals@ == old(self).shares.proposals@.insert(
                    spec_key(token_id, proposal_id),
                    (Proposal {
                        status: if passed {
                            ProposalStatus::Executed
                        } else {
                            ProposalStatus::Rejected
                        },
                        ..p
                    }),
                )
            },
            final(self).admin == old(self).admin,
            final(self).shares.compliance_registry == old(self).shares.compliance_registry,
            final(self).shares.total_shares == old(self).shares.total_shares,
            final(self).shares.dividends_per_share == old(self).shares.dividends_per_share,
            final(self).shares.dividend_credit == old(self).shares.dividend_credit,
            final(self).shares.dividend_balance == old(self).shares.dividend_balance,
            final(self).shares.proposal_counter == old(self).shares.proposal_counter,
            final(self).shares.votes == old(self).shares.votes,
            final(self).shares.asks == old(self).shares.asks,
            final(self).shares.escrowed_shares == old(self).shares.escrowed_shares,
            final(self).shares.last_trade_price == old(self).shares.last_trade_price,
            final(self).shares.tax_records == old(self).shares.tax_records,
            final(self).tokens == old(self).tokens,
            final(self).balances == old(self).balances,
            final(self).owner_token_count == old(self).owner_token_count,
            final(self).operator_approvals == old(self).operator_approvals,
            final(self).total_supply == old(self).total_supply,
            final(self).bridge_config == old(self).bridge_config,
            final(self).bridge_operators == old(self).bridge_operators,
            final(self).bridge_requests == old(self).bridge_requests,
            final(self).verified_hashes == old(self).verified_hashes,
            final(self).bridged_tokens == old(self).bridged_tokens,
            final(self).bridge_transactions == old(self).bridge_transactions,
    {
        let key = pack_key(token_id, proposal_id);
        let proposal = match self.shares.proposals.get(&key) {
            None => {
                return Err(Error::ProposalNotFound);
            },
            Some(p) => *p,
        };
        if proposal.status != ProposalStatus::Open {
            return Err(Error::ProposalClosed);
        }
        let passed = proposal.for_votes >= proposal.quorum && proposal.for_votes
            > proposal.against_votes;
        let updated = Proposal {
            status: if passed {
                ProposalStatus::Executed
            } else {
                ProposalStatus::Rejected
            },
            ..proposal
        };
        self.shares.proposals.insert(key, updated);
        Ok(passed)
    }

    /// The outcome `place_ask` owes: a positive price and amount, and enough
    /// unescrowed balance.
    pub open spec fn place_ask_outcome(
        s: PropertyToken,
        caller: AccountId,
        token_id: TokenId,
        price_per_share: u128,
        amount: u128,
    ) -> Result<(), Error> {
        if price_per_share == 0 || amount == 0 {
            Err(Error::InvalidAmount)
        } else if s.spec_balance(caller, token_id) < amount {
            Err(Error::InsufficientBalance)
        } else {
            Ok(())
        }
    }

    /// Opens (or replaces) the caller's sell offer on a token: the offered
    /// shares move from the balance into escrow.
    pub fn place_ask(
        &mut self,
        caller: AccountId,
        timestamp: u64,
        token_id: TokenId,
        price_per_share: u128,
        amount: u128,
    ) -> (r: Result<(), Error>)
        requires
            old(self).wf(),
        ensures
            final(self).wf(),
            r == Self::place_ask_outcome(*old(self), caller, token_id, price_per_share, amount),
            r is Err ==> *final(self) == *old(self),
            r is Ok ==> {
                &&& final(self).shares.escrowed_shares@ == old(
                    self,
                ).shares.escrowed_shares@.insert(
                    spec_key(token_id, caller),
                    spec_sat_add(old(self).spec_escrow(token_id, caller), amount),
                )
                &&& final(self).balances@ == old(self).balances@.insert(
                    spec_key(caller, token_id),
                    (old(self).spec_balance(caller, token_id) - amount) as u128,
                )
                &&& final(self).shares.asks@ == old(self).shares.asks@.insert(
                    spec_key(token_id, caller),
                    (Ask { token_id, seller: caller, price_per_share, amount, created_at: timestamp }),
                )
            },
            final(self).admin == old(self).admin,
            final(self).shares.compliance_registry == old(self).shares.compliance_registry,
            final(self).shares.total_shares == old(self).shares.total_shares,
            final(self).shares.dividends_per_share == old(self).shares.dividends_per_share,
            final(self).shares.dividend_credit == old(self).shares.dividend_credit,
            final(self).shares.dividend_balance == old(self).shares.dividend_balance,
            final(self).shares.proposal_counter == old(self).shares.proposal_counter,
            final(self).shares.proposals == old(self).shares.proposals,
            final(self).shares.votes == old(self).shares.votes,
            final(self).shares.last_trade_price == old(self).shares.last_trade_price,
            final(self).shares.tax_records == old(self).shares.tax_records,
            final(self).tokens == old(self).tokens,
            final(self).owner_token_count == old(self).owner_token_count,
            final(self).operator_approvals == old(self).operator_approvals,
            final(self).total_supply == old(self).total_supply,
            final(self).bridge_config == old(self).bridge_config,
            final(self).bridge_operators == old(self).bridge_operators,
            final(self).bridge_requests == old(self).bridge_requests,
            final(self).verified_hashes == old(self).verified_hashes,
            final(self).bridged_tokens == old(self).bridged_tokens,
            final(self).bridge_transactions == old(self).bridge_transactions,
    {
        if price_per_share == 0 || amount == 0 {
            return Err(Error::InvalidAmount);
        }
        let bal = self.share_balance_of(caller, token_id);
        if bal < amount {
            return Err(Error::InsufficientBalance);
        }
        let ekey = pack_key(token_id, caller);
        let esc = match self.shares.escrowed_shares.get(&ekey) {
            Some(v) => *v,
            None => 0,
        };
        self.shares.escrowed_shares.insert(ekey, esc.saturating_add(amount));
        let bkey = pack_key(caller, token_id);
        self.balances.insert(bkey, bal - amount);
        let ask = Ask { token_id, seller: caller, price_per_share, amount, created_at: timestamp };
        self.shares.asks.insert(ekey, ask);
        proof {
            assert forall|i: int|
                0 <= i < self.bridge_requests@.len() && (#[trigger] self.bridge_requests@[i]).status
                    == crate::types::BridgeOperationStatus::Locked implies self.spec_owner_of(
                self.bridge_requests@[i].token_id,
            ) == Some(crate::account::SENTINEL) by {
                assert(old(self).spec_owner_of(self.bridge_requests@[i].token_id) == Some(
                    crate::account::SENTINEL,
                ));
            }
        }
        Ok(())
    }

    /// The outcome `cancel_ask` owes: the caller must have an open ask.
    pub open spec fn cancel_ask_outcome(
        s: PropertyToken,
        caller: AccountId,
        token_id: TokenId,
    ) -> Result<(), Error> {
        if s.spec_ask(token_id, caller) is None {
            Err(Error::AskNotFound)
        } else {
            Ok(())
        }
    }

    /// Withdraws the caller's sell offer: all escrowed shares return to the
    /// balance.
    pub fn cancel_ask(&mut self, caller: AccountId, token_id: TokenId) -> (r: Result<(), Error>)
        requires
            old(self).wf(),
        ensures
            final(self).wf(),
            r == Self::cancel_ask_outcome(*old(self), caller, token_id),
            r is Err ==> *final(self) == *old(self),
            r is Ok ==> {
                &&& final(self).balances@ == old(self).balances@.insert(
                    spec_key(caller, token_id),
                    spec_sat_add(
                        old(self).spec_balance(caller, token_id),
                        old(self).spec_escrow(token_id, caller),
                    ),
                )
                &&& final(self).shares.escrowed_shares@ == old(
                    self,
                ).shares.escrowed_shares@.insert(spec_key(token_id, caller), 0u128)
                &&& final(self).shares.asks@ == old(self).shares.asks@.remove(
                    spec_key(token_id, caller),
                )
                &&& final(self).spec_ask(token_id, caller) is None
            },
            final(self).admin == old(self).admin,
            final(self).shares.compliance_registry == old(self).shares.compliance_registry,
            final(self).shares.total_shares == old(self).shares.total_shares,
            final(self).shares.dividends_per_share == old(self).shares.dividends_per_share,
            final(self).shares.dividend_credit == old(self).shares.dividend_credit,
            final(self).shares.dividend_balance == old(self).shares.dividend_balance,
            final(self).shares.proposal_counter == old(self).shares.proposal_counter,
            final(self).shares.proposals == old(self).shares.proposals,
            final(self).shares.votes == old(self).shares.votes,
            final(self).shares.last_trade_price == old(self).shares.last_trade_price,
            final(self).shares.tax_records == old(self).shares.tax_records,
            final(self).tokens == old(self).tokens,
            final(self).owner_token_count == old(self).owner_token_count,
            final(self).operator_approvals == old(self).operator_approvals,
            final(self).total_supply == old(self).total_supply,
            final(self).bridge_config == old(self).bridge_config,
            final(self).bridge_operators == old(self).bridge_operators,
            final(self).bridge_requests == old(self).bridge_requests,
            final(self).verified_hashes == old(self).verified_hashes,
            final(self).bridged_tokens == old(self).bridged_tokens,
            final(self).bridge_transactions == old(self).bridge_transactions,
    {
        let akey = pack_key(token_id, caller);
        if self.shares.asks.get(&akey).is_none() {
            return Err(Error::AskNotFound);
        }
        let esc = match self.shares.escrowed_shares.get(&akey) {
            Some(v) => *v,
            None => 0,
        };
        let bkey = pack_key(caller, token_id);
        let bal = self.share_balance_of(caller, token_id);
        self.balances.insert(bkey, bal.saturating_add(esc));
        self.shares.escrowed_shares.insert(akey, 0);
        self.shares.asks.remove(&akey);
        proof {
            assert forall|i: int|
                0 <= i < self.bridge_requests@.len() && (#[trigger] self.bridge_requests@[i]).status
                    == crate::types::BridgeOperationStatus::Locked implies self.spec_owner_of(
                self.bridge_requests@[i].token_id,
            ) == Some(crate::account::SENTINEL) by {
                assert(old(self).spec_owner_of(self.bridge_requests@[i].token_id) == Some(
                    crate::account::SENTINEL,
                ));
            }
        }
        Ok(())
    }

    /// The outcome `buy_shares` owes: a positive amount no larger than the
    /// ask, payment of exactly the asked total, both parties accepted by the
    /// compliance gate, and enough escrowed shares. `paid` is the amount paid
    /// in with the call; the two flags carry what the external compliance
    /// registry reported for buyer and seller.
    pub open spec fn buy_shares_outcome(
        s: PropertyToken,
        caller: AccountId,
        token_id: TokenId,
        seller: AccountId,
        amount: u128,
        paid: u128,
        buyer_compliant: bool,
        seller_compliant: bool,
    ) -> Result<(), Error> {
        if amount == 0 {
            Err(Error::InvalidAmount)
        } else if s.spec_ask(token_id, seller) is None {
            Err(Error::AskNotFound)
        } else if s.spec_ask(token_id, seller)->Some_0.amount < amount {
            Err(Error::InvalidAmount)
        } else if paid != spec_sat_mul(s.spec_ask(token_id, seller)->Some_0.price_per_share, amount) {
            Err(Error::InvalidAmount)
        } else if !(s.spec_compliance_passes(buyer_compliant) && s.spec_compliance_passes(
            seller_compliant,
        )) {
            Err(Error::ComplianceFailed)
        } else if s.spec_escrow(token_id, seller) < amount {
            Err(Error::AskNotFound)
        } else {
            Ok(())
        }
    }

    /// Buys shares out of a seller's open ask: escrowed shares move to the
    /// buyer, the sale is recorded in the seller's tax record and as the
    /// latest trade price, and the ask shrinks or closes. Paying the seller
    /// is the surrounding ledger's part.
    pub fn buy_shares(
        &mut self,
        caller: AccountId,
        token_id: TokenId,
        seller: AccountId,
        amount: u128,
        paid: u128,
        buyer_compliant: bool,
        seller_compliant: bool,
    ) -> (r: Result<(), Error>)
        requires
            old(self).wf(),
        ensures
            final(self).wf(),
            r == Self::buy_shares_outcome(
                *old(self),
                caller,
                token_id,
                seller,
                amount,
                paid,
                buyer_compliant,
                seller_compliant,
            ),
            r is Err ==> *final(self) == *old(self),
            r is Ok ==> {
                let ask = old(self).spec_ask(token_id, seller)->Some_0;
                let cost = spec_sat_mul(ask.price_per_share, amount);
                &&& final(self).balances@ == old(self).balances@.insert(
                    spec_key(caller, token_id),
                    spec_sat_add(old(self).spec_balance(caller, token_id), amount),
                )
                &&& final(self).shares.escrowed_shares@ == old(
                    self,
                ).shares.escrowed_shares@.insert(
                    spec_key(token_id, seller),
                    (old(self).spec_escrow(token_id, seller) - amount) as u128,
                )
                &&& final(self).shares.tax_records@ == old(self).shares.tax_records@.insert(
                    spec_key(seller, token_id),
                    (TaxRecord {
                        shares_sold: spec_sat_add(
                            old(self).spec_tax(seller, token_id).shares_sold,
                            amount,
                        ),
                        proceeds: spec_sat_add(old(self).spec_tax(seller, token_id).proceeds, cost),
                        ..old(self).spec_tax(seller, token_id)
                    }),
                )
                &&& final(self).shares.last_trade_price@ == old(
                    self,
                ).shares.last_trade_price@.insert(token_id, ask.price_per_share)
                &&& final(self).shares.asks@ == (if ask.amount == amount {
                    old(self).shares.asks@.remove(spec_key(token_id, seller))
                } else {
                    old(self).shares.asks@.insert(
                        spec_key(token_id, seller),
                        (Ask { amount: (ask.amount - amount) as u128, ..ask }),
                    )
                })
            },
            final(self).admin == old(self).admin,
            final(self).shares.compliance_registry == old(self).shares.compliance_registry,
            final(self).shares.total_shares == old(self).shares.total_shares,
            final(self).shares.dividends_per_share == old(self).shares.dividends_per_share,
            final(self).shares.dividend_credit == old(self).shares.dividend_credit,
            final(self).shares.dividend_balance == old(self).shares.dividend_balance,
            final(self).shares.proposal_counter == old(self).shares.proposal_counter,
            final(self).shares.proposals == old(self).shares.proposals,
            final(self).shares.votes == old(self).shares.votes,
            final(self).tokens == old(self).tokens,
            final(self).owner_token_count == old(self).owner_token_count,
            final(self).operator_approvals == old(self).operator_approvals,
            final(self).total_supply == old(self).total_supply,
            final(self).bridge_config == old(self).bridge_config,
            final(self).bridge_operators == old(self).bridge_operators,
            final(self).bridge_requests == old(self).bridge_requests,
            final(self).verified_hashes == old(self).verified_hashes,
            final(self).bridged_tokens == old(self).bridged_tokens,
            final(self).bridge_transactions == old(self).bridge_transactions,
    {
        if amount == 0 {
            return Err(Error::InvalidAmount);
        }
        let akey = pack_key(token_id, seller);
        let ask = match self.shares.asks.get(&akey) {
            None => {
                return Err(Error::AskNotFound);
            },
            Some(a) => *a,
        };
        if ask.amount < amount {
            return Err(Error::InvalidAmount);
        }
        let cost = sat_mul(ask.price_per_share, amount);
        if paid != cost {
            return Err(Error::InvalidAmount);
        }
        let gate_open = self.shares.compliance_registry.is_none();
        if !((gate_open || buyer_compliant) && (gate_open || seller_compliant)) {
            return Err(Error::ComplianceFailed);
        }
        let esc = match self.shares.escrowed_shares.get(&akey) {
            Some(v) => *v,
            None => 0,
        };
        if esc < amount {
            return Err(Error::AskNotFound);
        }
        let bkey = pack_key(caller, token_id);
        let to_balance = self.share_balance_of(caller, token_id);
        self.balances.insert(bkey, to_balance.saturating_add(amount));
        self.shares.escrowed_shares.insert(akey, esc - amount);
        let tkey = pack_key(seller, token_id);
        let mut rec = self.get_tax_record(seller, token_id);
        rec.shares_sold = rec.shares_sold.saturating_add(amount);
        rec.proceeds = rec.proceeds.saturating_add(cost);
        self.shares.tax_records.insert(tkey, rec);
        self.shares.last_trade_price.insert(token_id, ask.price_per_share);
        if ask.amount == amount {
            self.shares.asks.remove(&akey);
        } else {
            let updated = Ask { amount: ask.amount - amount, ..ask };
            self.shares.asks.insert(akey, updated);
        }
        proof {
            assert forall|i: int|
                0 <= i < self.bridge_requests@.len() && (#[trigger] self.bridge_requests@[i]).status
                    == crate::types::BridgeOperationStatus::Locked implies self.spec_owner_of(
                self.bridge_requests@[i].token_id,
            ) == Some(crate::account::SENTINEL) by {
                assert(old(self).spec_owner_of(self.bridge_requests@[i].token_id) == Some(
                    crate::account::SENTINEL,
                ));
            }
        }
        Ok(())
    }
}

} // verus!
