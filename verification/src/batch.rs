use vstd::prelude::*;

use crate::account::AccountId;
use crate::bridge::PropertyToken;
use crate::bridge::pack_key;
use crate::bridge::spec_key;
use crate::shares::spec_sat_add;
use crate::types::Error;
use crate::types::TokenId;

verus! {

broadcast use vstd::std_specs::hash::group_hash_axioms;

/// One step of a batch transfer: move one amount of one token from `from`
/// to `to` within the balances map, or nothing when the balance is short.
pub open spec fn spec_batch_step(
    m: Map<u128, u128>,
    from: AccountId,
    to: AccountId,
    id: TokenId,
    amount: u128,
) -> Option<Map<u128, u128>> {
    let kf = spec_key(from, id);
    let fb: u128 = if m.contains_key(kf) {
        m[kf]
    } else {
        0
    };
    if fb < amount {
        None
    } else {
        let m1 = m.insert(kf, (fb - amount) as u128);
        let kt = spec_key(to, id);
        let tb: u128 = if m1.contains_key(kt) {
            m1[kt]
        } else {
            0
        };
        Some(m1.insert(kt, spec_sat_add(tb, amount)))
    }
}

/// The balances map after transferring all listed amounts in order, or
/// nothing when some step finds the balance short.
pub open spec fn spec_batch_apply(
    m: Map<u128, u128>,
    from: AccountId,
    to: AccountId,
    ids: Seq<TokenId>,
    amounts: Seq<u128>,
) -> Option<Map<u128, u128>>
    decreases ids.len(),
{
    if ids.len() == 0 {
        Some(m)
    } else {
        match spec_batch_step(m, from, to, ids[0], amounts[0]) {
            None => None,
            Some(m1) => spec_batch_apply(m1, from, to, ids.skip(1), amounts.skip(1)),
        }
    }
}

/// The balances map with a list of (key, value) writes laid over it, later
/// writes winning.
pub open spec fn spec_overlay(base: Map<u128, u128>, writes: Seq<(u128, u128)>) -> Map<u128, u128>
    decreases writes.len(),
{
    if writes.len() == 0 {
        base
    } else {
        spec_overlay(base, writes.drop_last()).insert(writes.last().0, writes.last().1)
    }
}

/// Reads one balance through the write list: the latest write to the key
/// wins, the base map backs the rest, and a missing key reads as zero.
fn overlay_read(
    balances: &vstd::hash_map::HashMapWithView<u128, u128>,
    writes: &Vec<(u128, u128)>,
    key: u128,
) -> (r: u128)
    ensures
        r == {
            let m = spec_overlay(balances@, writes@);
            if m.contains_key(key) {
                m[key]
            } else {
                0u128
            }
        },
{
    let mut p: usize = writes.len();
    proof {
        assert(writes@.take(writes@.len() as int) =~= writes@);
    }
    while p > 0
        invariant
            0 <= p <= writes@.len(),
            ({
                let m = spec_overlay(balances@, writes@);
                let mp = spec_overlay(balances@, writes@.take(p as int));
                &&& m.contains_key(key) == mp.contains_key(key)
                &&& m.contains_key(key) ==> m[key] == mp[key]
            }),
        decreases p,
    {
        let (k, v) = writes[p - 1];
        if k == key {
            proof {
                assert(writes@.take(p as int).drop_last() =~= writes@.take(p as int - 1));
                assert(writes@.take(p as int).last() == writes@[p - 1]);
            }
            return v;
        }
        proof {
            assert(writes@.take(p as int).drop_last() =~= writes@.take(p as int - 1));
            assert(writes@.take(p as int).last() == writes@[p - 1]);
        }
        p = p - 1;
    }
    proof {
        assert(writes@.take(0) =~= Seq::<(u128, u128)>::empty());
    }
    match balances.get(&key) {
        Some(v) => *v,
        None => 0,
    }
}

impl PropertyToken {
    /// The outcome `safe_batch_transfer_from` owes: authority over `from`,
    /// paired lists, and enough balance at every step of the sequential
    /// simulation. Mismatched lists and short balances report as
    /// authorization failures, as the single-token transfer's caller checks
    /// do.
    pub open spec fn batch_transfer_outcome(
        s: PropertyToken,
        caller: AccountId,
        from: AccountId,
        to: AccountId,
        ids: Seq<TokenId>,
        amounts: Seq<u128>,
    ) -> Result<(), Error> {
        if from != caller && !s.spec_approved_for_all(from, caller) {
            Err(Error::Unauthorized)
        } else if ids.len() != amounts.len() {
            Err(Error::Unauthorized)
        } else if spec_batch_apply(s.balances@, from, to, ids, amounts) is None {
            Err(Error::Unauthorized)
        } else {
            Ok(())
        }
    }

    /// Transfers several token amounts between two accounts in one atomic
    /// call: either every listed amount moves, in order, or nothing does.
    /// The caller must be `from` or an operator for `from`.
    pub fn safe_batch_transfer_from(
        &mut self,
        caller: AccountId,
        from: AccountId,
        to: AccountId,
        ids: Vec<TokenId>,
        amounts: Vec<u128>,
        _data: Vec<u8>,
    ) -> (r: Result<(), Error>)
        requires
            old(self).wf(),
        ensures
            final(self).wf(),
            r == Self::batch_transfer_outcome(*old(self), caller, from, to, ids@, amounts@),
            r is Err ==> *final(self) == *old(self),
            r is Ok ==> Some(final(self).balances@) == spec_batch_apply(
                old(self).balances@,
                from,
                to,
                ids@,
                amounts@,
            ),
            final(self).admin == old(self).admin,
            final(self).shares == old(self).shares,
            final(self).tokens == old(self).tokens,
            final(self).owner_token_count == old(self).owner_token_count,
            final(self).operator_approvals == old(self).operator_approvals,
            final(self).total_supply == old(self).total_supply,
            final(self).bridge_config == old(self).bridge_config,
            final(self).bridge_operators == old(self).bridge_operators,
            final(self).bridge_requests == old(self).bridge_requests,
            final(self).verified_hashes == old(self).verified_hashes,
            final(self).bridged_tokens == old(self).bridged_tokens,
            final(self).bridge_transactions == old(self).bridge_transactions,
    {
        if from != caller && !self.is_approved_for_all(from, caller) {
            return Err(Error::Unauthorized);
        }
        if ids.len() != amounts.len() {
            return Err(Error::Unauthorized);
        }
        // First pass: simulate the whole batch on a write list, leaving the
        // stored balances untouched until every step is known to fit.
        let mut writes: Vec<(u128, u128)> = Vec::new();
        let mut i: usize = 0;
        proof {
            assert(ids@.skip(0) =~= ids@);
            assert(amounts@.skip(0) =~= amounts@);
        }
        while i < ids.len()
            invariant
                *self == *old(self),
                old(self).wf(),
                ids@.len() == amounts@.len(),
                0 <= i <= ids@.len(),
                spec_batch_apply(self.balances@, from, to, ids@, amounts@) == spec_batch_apply(
                    spec_overlay(self.balances@, writes@),
                    from,
                    to,
                    ids@.skip(i as int),
                    amounts@.skip(i as int),
                ),
            decreases ids@.len() - i,
        {
            let id = ids[i];
            let amount = amounts[i];
            let kf = pack_key(from, id);
            let fb = overlay_read(&self.balances, &writes, kf);
            if fb < amount {
                proof {
                    assert(spec_batch_step(
                        spec_overlay(self.balances@, writes@),
                        from,
                        to,
                        ids@.skip(i as int)[0],
                        amounts@.skip(i as int)[0],
                    ) is None);
                }
                return Err(Error::Unauthorized);
            }
            let ghost cur = spec_overlay(self.balances@, writes@);
            let ghost ws0 = writes@;
            writes.push((kf, fb - amount));
            proof {
                assert(writes@.drop_last() =~= ws0);
                assert(spec_overlay(self.balances@, writes@) == cur.insert(
                    spec_key(from, id),
                    (fb - amount) as u128,
                ));
            }
            let kt = pack_key(to, id);
            let tb = overlay_read(&self.balances, &writes, kt);
            let ghost cur1 = spec_overlay(self.balances@, writes@);
            let ghost ws1 = writes@;
            writes.push((kt, tb.saturating_add(amount)));
            proof {
                assert(writes@.drop_last() =~= ws1);
                assert(spec_overlay(self.balances@, writes@) == cur1.insert(
                    spec_key(to, id),
                    spec_sat_add(tb, amount),
                ));
                assert(spec_batch_step(cur, from, to, ids@[i as int], amounts@[i as int])
                    == Some(spec_overlay(self.balances@, writes@)));
                assert(ids@.skip(i as int)[0] == ids@[i as int]);
                assert(ids@.skip(i as int).skip(1) =~= ids@.skip(i as int + 1));
                assert(amounts@.skip(i as int).skip(1) =~= amounts@.skip(i as int + 1));
            }
            i = i + 1;
        }
        proof {
            assert(ids@.skip(i as int).len() == 0);
        }
        let ghost target = spec_overlay(old(self).balances@, writes@);
        // Second pass: commit the writes, in order.
        let mut j: usize = 0;
        proof {
            assert(spec_overlay(old(self).balances@, writes@.take(0))
                =~= old(self).balances@);
        }
        while j < writes.len()
            invariant
                target == spec_overlay(old(self).balances@, writes@),
                self.balances@ == spec_overlay(old(self).balances@, writes@.take(j as int)),
                0 <= j <= writes@.len(),
                self.admin == old(self).admin,
                self.shares == old(self).shares,
                self.tokens == old(self).tokens,
                self.owner_token_count == old(self).owner_token_count,
                self.operator_approvals == old(self).operator_approvals,
                self.total_supply == old(self).total_supply,
                self.bridge_config == old(self).bridge_config,
                self.bridge_operators == old(self).bridge_operators,
                self.bridge_requests == old(self).bridge_requests,
                self.verified_hashes == old(self).verified_hashes,
                self.bridged_tokens == old(self).bridged_tokens,
                self.bridge_transactions == old(self).bridge_transactions,
            decreases writes@.len() - j,
        {
            let (k, v) = writes[j];
            self.balances.insert(k, v);
            proof {
                assert(writes@.take(j as int + 1).drop_last() =~= writes@.take(j as int));
                assert(writes@.take(j as int + 1).last() == writes@[j as int]);
            }
            j = j + 1;
        }
        proof {
            assert(writes@.take(writes@.len() as int) =~= writes@);
            assert forall|i2: int|
                0 <= i2 < self.bridge_requests@.len() && (
                #[trigger] self.bridge_requests@[i2]).status
                    == crate::types::BridgeOperationStatus::Locked implies self.spec_owner_of(
                self.bridge_requests@[i2].token_id,
            ) == Some(crate::account::SENTINEL) by {
                assert(old(self).spec_owner_of(self.bridge_requests@[i2].token_id) == Some(
                    crate::account::SENTINEL,
                ));
            }
        }
        Ok(())
    }
}

} // verus!
