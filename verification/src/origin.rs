use vstd::prelude::*;

use crate::types::{AccountId, DispatchError, Origin};

verus! {

/// Accepts a signed origin and yields its signer; refuses any other origin.
pub open spec fn spec_ensure_signed(origin: Origin) -> Result<AccountId, DispatchError> {
    match origin {
        Origin::Signed(who) => Ok(who),
        _ => Err(DispatchError::BadOrigin),
    }
}

/// Accepts the root origin only.
pub open spec fn spec_ensure_root(origin: Origin) -> Result<(), DispatchError> {
    match origin {
        Origin::Root => Ok(()),
        _ => Err(DispatchError::BadOrigin),
    }
}

/// Accepts the origin signed by the bridge account only, and yields that account.
pub open spec fn spec_ensure_bridge(origin: Origin, bridge_account: AccountId) -> Result<
    AccountId,
    DispatchError,
> {
    match origin {
        Origin::Signed(who) => if who@ == bridge_account@ {
            Ok(bridge_account)
        } else {
            Err(DispatchError::BadOrigin)
        },
        _ => Err(DispatchError::BadOrigin),
    }
}

/// Byte-wise equality of two 32-byte identifiers.
pub fn bytes32_eq(a: &[u8; 32], b: &[u8; 32]) -> (eq: bool)
    ensures
        eq == (a@ == b@),
{
    let mut i: usize = 0;
    while i < 32
        invariant
            i <= 32,
            forall|j: int| 0 <= j < i ==> a@[j] == b@[j],
        decreases 32 - i,
    {
        if a[i] != b[i] {
            return false;
        }
        i = i + 1;
    }
    assert(a@ =~= b@);
    true
}

/// The signer of a signed origin.
pub fn ensure_signed(origin: Origin) -> (res: Result<AccountId, DispatchError>)
    ensures
        res == spec_ensure_signed(origin),
{
    match origin {
        Origin::Signed(who) => Ok(who),
        _ => Err(DispatchError::BadOrigin),
    }
}

/// Succeeds for the root origin only.
pub fn ensure_root(origin: Origin) -> (res: Result<(), DispatchError>)
    ensures
        res == spec_ensure_root(origin),
{
    match origin {
        Origin::Root => Ok(()),
        _ => Err(DispatchError::BadOrigin),
    }
}

/// Succeeds for an origin signed by `bridge_account` only, yielding that account.
pub fn ensure_bridge(origin: Origin, bridge_account: AccountId) -> (res: Result<
    AccountId,
    DispatchError,
>)
    ensures
        res == spec_ensure_bridge(origin, bridge_account),
{
    match origin {
        Origin::Signed(who) => if bytes32_eq(&who, &bridge_account) {
            Ok(bridge_account)
        } else {
            Err(DispatchError::BadOrigin)
        },
        _ => Err(DispatchError::BadOrigin),
    }
}

} // verus!
