use vstd::prelude::*;

verus! {

/// An account on the local ledger, identified by a numeric id.
pub type AccountId = u64;

/// The non-operable sentinel holder a token is frozen to while a bridge
/// is in flight. No real account has this id.
pub const SENTINEL: AccountId = 0;

/// True when an account id names a real, operable account.
pub open spec fn is_real_account(a: AccountId) -> bool {
    a != SENTINEL
}

} // verus!
