use vstd::prelude::*;
use crate::types::{EscrowError, Key};
use crate::model::EscrowView;

verus! {

/// After a successful lock of `asset` by `owner`, the ledger holds an entry
/// for the pair, the vault holds the asset, and locking the same pair again
/// fails with `AlreadyLocked`, whatever the fee offered or the outside
/// results.
pub proof fn lemma_lock_then_relock(
    s: EscrowView,
    owner: Key,
    asset: Key,
    lamports: u64,
    now: i64,
    lamports2: u64,
    custody_ok2: bool,
    payment_ok2: bool,
)
    requires
        s.lock_outcome(owner, asset, lamports, true, true) is Ok,
    ensures
        ({
            let t = s.after_lock(owner, asset, lamports, now);
            &&& t.ledger.contains_key((asset, owner))
            &&& t.ledger[(asset, owner)].owner == owner
            &&& t.ledger[(asset, owner)].lamports == s.fee()
            &&& t.custody[asset] == t.vault()
            &&& t.vault_balance == s.vault_balance + s.fee()
            &&& t.lock_outcome(owner, asset, lamports2, custody_ok2, payment_ok2)
                == Err::<(), EscrowError>(EscrowError::AlreadyLocked)
        }),
{
}

/// A successful lock followed by a successful unlock by the same owner gives
/// the asset back to the owner, leaves no entry for the pair, keeps the
/// collected fee, and a second unlock fails with `LockerNotFound`.
pub proof fn lemma_lock_then_unlock(
    s: EscrowView,
    owner: Key,
    asset: Key,
    lamports: u64,
    now: i64,
    custody_ok2: bool,
)
    requires
        s.lock_outcome(owner, asset, lamports, true, true) is Ok,
    ensures
        ({
            let t = s.after_lock(owner, asset, lamports, now);
            let u = t.after_unlock(owner, asset);
            &&& t.unlock_outcome(owner, asset, true) is Ok
            &&& u.custody[asset] == owner
            &&& !u.ledger.contains_key((asset, owner))
            &&& u.vault_balance == t.vault_balance
            &&& u.unlock_outcome(owner, asset, custody_ok2)
                == Err::<(), EscrowError>(EscrowError::LockerNotFound)
        }),
{
}

/// Two deposits by different owners, then a swap by the first naming both
/// assets: each asset ends with the other owner, neither entry remains, and
/// any further swap or unlock that names either entry fails with
/// `LockerNotFound`.
pub proof fn lemma_lock_lock_swap(
    s: EscrowView,
    o1: Key,
    a1: Key,
    l1: u64,
    t1: i64,
    o2: Key,
    a2: Key,
    l2: u64,
    t2: i64,
    ok: bool,
)
    requires
        s.lock_outcome(o1, a1, l1, true, true) is Ok,
        s.after_lock(o1, a1, l1, t1).lock_outcome(o2, a2, l2, true, true) is Ok,
        o1 != o2,
    ensures
        ({
            let s1 = s.after_lock(o1, a1, l1, t1);
            let s2 = s1.after_lock(o2, a2, l2, t2);
            let s3 = s2.after_swap(o1, a1, a2, o2);
            &&& a1 != a2
            &&& s2.swap_outcome(o1, a1, a2, o2, true) is Ok
            &&& s3.custody[a1] == o2
            &&& s3.custody[a2] == o1
            &&& !s3.ledger.contains_key((a1, o1))
            &&& !s3.ledger.contains_key((a2, o2))
            &&& s3.swap_outcome(o1, a1, a2, o2, ok) == Err::<(), EscrowError>(EscrowError::LockerNotFound)
            &&& s3.swap_outcome(o2, a2, a1, o1, ok) == Err::<(), EscrowError>(EscrowError::LockerNotFound)
            &&& s3.unlock_outcome(o1, a1, ok) == Err::<(), EscrowError>(EscrowError::LockerNotFound)
            &&& s3.unlock_outcome(o2, a2, ok) == Err::<(), EscrowError>(EscrowError::LockerNotFound)
        }),
{
    let s1 = s.after_lock(o1, a1, l1, t1);
    assert(s1.ledger.contains_key((a1, o1)));
    if a1 == a2 {
        assert(s1.asset_locked(a2));
    }
}

/// A swap whose counterparty is its signer, naming two assets that signer
/// has locked, fails with `SelfSwapNotAllowed` (and so changes nothing).
pub proof fn lemma_self_swap_rejected(s: EscrowView, o: Key, a1: Key, a2: Key, ok: bool)
    requires
        s.wf(),
        s.ledger.contains_key((a1, o)),
        s.ledger.contains_key((a2, o)),
    ensures
        s.swap_outcome(o, a1, a2, o, ok) == Err::<(), EscrowError>(EscrowError::SelfSwapNotAllowed),
{
}

/// On an initialized protocol where `owner` has no outstanding deposit of
/// `asset`, a lock that offers a fee other than the configured one fails
/// with `InvalidFeeAmount` (and so changes nothing), whatever the outside
/// results.
pub proof fn lemma_wrong_fee_rejected(
    s: EscrowView,
    owner: Key,
    asset: Key,
    lamports: u64,
    custody_ok: bool,
    payment_ok: bool,
)
    requires
        s.config is Some,
        !s.ledger.contains_key((asset, owner)),
        lamports != s.fee(),
    ensures
        s.lock_outcome(owner, asset, lamports, custody_ok, payment_ok)
            == Err::<(), EscrowError>(EscrowError::InvalidFeeAmount),
{
}

/// Setting the fee: anyone but the authority is refused with
/// `Unauthorized`; the authority gets the new fee, and the recorded
/// `lamports` of every existing entry stay as they were.
pub proof fn lemma_set_fee(s: EscrowView, signer: Key, fee: u64)
    requires
        s.config is Some,
    ensures
        signer != s.config.unwrap().authority
            ==> s.set_fee_outcome(signer) == Err::<(), EscrowError>(EscrowError::Unauthorized),
        signer == s.config.unwrap().authority ==> {
            let t = s.after_set_fee(fee);
            &&& s.set_fee_outcome(signer) is Ok
            &&& t.fee() == fee
            &&& t.config.unwrap().authority == s.config.unwrap().authority
            &&& t.config.unwrap().vault == s.config.unwrap().vault
            &&& t.ledger == s.ledger
        },
{
}

/// A fresh protocol is well formed.
pub proof fn lemma_wf_empty(s: EscrowView)
    requires
        s.config is None,
        s.ledger.is_empty(),
    ensures
        s.wf(),
{
}

/// A successful initialization keeps the state well formed.
pub proof fn lemma_initialize_keeps_wf(s: EscrowView, signer: Key, fee: u64)
    requires
        s.wf(),
        s.initialize_outcome() is Ok,
    ensures
        s.after_initialize(signer, fee).wf(),
{
    assert(s.ledger.dom() =~= Set::<(Key, Key)>::empty());
}

/// A successful fee change keeps the state well formed.
pub proof fn lemma_set_fee_keeps_wf(s: EscrowView, signer: Key, fee: u64)
    requires
        s.wf(),
        s.set_fee_outcome(signer) is Ok,
    ensures
        s.after_set_fee(fee).wf(),
{
}

/// A successful lock keeps the state well formed.
pub proof fn lemma_lock_keeps_wf(s: EscrowView, signer: Key, asset: Key, lamports: u64, now: i64)
    requires
        s.wf(),
        s.lock_outcome(signer, asset, lamports, true, true) is Ok,
    ensures
        s.after_lock(signer, asset, lamports, now).wf(),
{
    let t = s.after_lock(signer, asset, lamports, now);
    assert forall|a: Key, o1: Key, o2: Key|
        #[trigger] t.ledger.contains_key((a, o1)) && #[trigger] t.ledger.contains_key((a, o2))
        implies o1 == o2 by {
        if a == asset {
            if o1 != signer {
                assert(s.ledger.contains_key((a, o1)));
            }
            if o2 != signer {
                assert(s.ledger.contains_key((a, o2)));
            }
        }
    }
}

/// A successful unlock keeps the state well formed.
pub proof fn lemma_unlock_keeps_wf(s: EscrowView, signer: Key, asset: Key)
    requires
        s.wf(),
        s.unlock_outcome(signer, asset, true) is Ok,
    ensures
        s.after_unlock(signer, asset).wf(),
{
    let t = s.after_unlock(signer, asset);
    assert forall|a: Key, o: Key| #[trigger] t.ledger.contains_key((a, o))
        implies t.custody.contains_key(a) && t.custody[a] == t.vault() by {
        assert(s.ledger.contains_key((a, o)));
        if a == asset {
            assert(s.ledger.contains_key((asset, signer)));
        }
    }
}

/// A successful swap keeps the state well formed.
pub proof fn lemma_swap_keeps_wf(s: EscrowView, signer: Key, offered: Key, desired: Key, counterparty: Key)
    requires
        s.wf(),
        s.swap_outcome(signer, offered, desired, counterparty, true) is Ok,
    ensures
        s.after_swap(signer, offered, desired, counterparty).wf(),
{
    let t = s.after_swap(signer, offered, desired, counterparty);
    assert forall|a: Key, o: Key| #[trigger] t.ledger.contains_key((a, o))
        implies t.custody.contains_key(a) && t.custody[a] == t.vault() by {
        assert(s.ledger.contains_key((a, o)));
        if a == offered {
            assert(s.ledger.contains_key((offered, signer)));
        }
        if a == desired {
            assert(s.ledger.contains_key((desired, counterparty)));
        }
    }
}

} // verus!
