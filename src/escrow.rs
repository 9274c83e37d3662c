use vstd::prelude::*;
use crate::types::{AssetLocker, EscrowError, Key, ProtocolConfig};
use crate::model::EscrowView;
use crate::address::find_vault_address;
use crate::laws::{
    lemma_initialize_keeps_wf, lemma_lock_keeps_wf, lemma_set_fee_keeps_wf, lemma_swap_keeps_wf,
    lemma_unlock_keeps_wf,
};

verus! {

/// One custody reassignment that the protocol has performed.
#[derive(Clone, Copy, Debug, PartialEq, Eq, Structural)]
pub struct CustodyMove {
    pub asset: Key,
    pub to: Key,
}

pub open spec fn locker_key(l: AssetLocker) -> (Key, Key) {
    (l.asset, l.owner)
}

/// The ledger that a list of entries stands for; a later entry under the
/// same key hides an earlier one.
pub open spec fn ledger_of(s: Seq<AssetLocker>) -> Map<(Key, Key), AssetLocker>
    decreases s.len(),
{
    if s.len() == 0 {
        Map::empty()
    } else {
        ledger_of(s.drop_last()).insert(locker_key(s.last()), s.last())
    }
}

/// Who holds each asset, after a log of custody moves.
pub open spec fn custody_after(s: Seq<CustodyMove>) -> Map<Key, Key>
    decreases s.len(),
{
    if s.len() == 0 {
        Map::empty()
    } else {
        custody_after(s.drop_last()).insert(s.last().asset, s.last().to)
    }
}

proof fn lemma_ledger_push(s: Seq<AssetLocker>, l: AssetLocker)
    ensures
        ledger_of(s.push(l)) == ledger_of(s).insert(locker_key(l), l),
{
    assert(s.push(l).drop_last() =~= s);
}

proof fn lemma_custody_push(s: Seq<CustodyMove>, m: CustodyMove)
    ensures
        custody_after(s.push(m)) == custody_after(s).insert(m.asset, m.to),
{
    assert(s.push(m).drop_last() =~= s);
}

proof fn lemma_custody_take_step(s: Seq<CustodyMove>, i: int)
    requires
        0 <= i < s.len(),
    ensures
        custody_after(s.take(i + 1)) == custody_after(s.take(i)).insert(s[i].asset, s[i].to),
{
    assert(s.take(i + 1).drop_last() =~= s.take(i));
}

proof fn lemma_ledger_take_step(s: Seq<AssetLocker>, i: int)
    requires
        0 <= i < s.len(),
    ensures
        ledger_of(s.take(i + 1)) == ledger_of(s.take(i)).insert(locker_key(s[i]), s[i]),
{
    assert(s.take(i + 1).drop_last() =~= s.take(i));
}

/// A key is in the ledger exactly when some entry carries it.
proof fn lemma_ledger_contains(s: Seq<AssetLocker>, k: (Key, Key))
    ensures
        ledger_of(s).contains_key(k) <==> exists|i: int| 0 <= i < s.len() && locker_key(#[trigger] s[i]) == k,
    decreases s.len(),
{
    if s.len() > 0 {
        let t = s.drop_last();
        lemma_ledger_contains(t, k);
        if ledger_of(s).contains_key(k) && locker_key(s.last()) != k {
            let i = choose|i: int| 0 <= i < t.len() && locker_key(#[trigger] t[i]) == k;
            assert(s[i] == t[i]);
        }
        if exists|i: int| 0 <= i < s.len() && locker_key(#[trigger] s[i]) == k {
            let i = choose|i: int| 0 <= i < s.len() && locker_key(#[trigger] s[i]) == k;
            if i < s.len() - 1 {
                assert(t[i] == s[i]);
            }
        }
    }
}

pub struct Escrow {
    config: Option<ProtocolConfig>,
    lockers: Vec<AssetLocker>,
    moves: Vec<CustodyMove>,
    vault_balance: u64,
}

impl View for Escrow {
    type V = EscrowView;

    closed spec fn view(&self) -> EscrowView {
        EscrowView {
            config: self.config,
            ledger: ledger_of(self.lockers@),
            custody: custody_after(self.moves@),
            vault_balance: self.vault_balance,
        }
    }
}

impl Escrow {
    /// A protocol that has not been initialized: no config, no deposits.
    pub fn new() -> (r: Escrow)
        ensures
            r@.config is None,
            r@.ledger == Map::<(Key, Key), AssetLocker>::empty(),
            r@.custody == Map::<Key, Key>::empty(),
            r@.vault_balance == 0,
            r@.wf(),
    {
        Escrow { config: None, lockers: Vec::new(), moves: Vec::new(), vault_balance: 0 }
    }

    pub fn config(&self) -> (r: Option<ProtocolConfig>)
        ensures
            r == self@.config,
    {
        self.config
    }

    pub fn vault_balance(&self) -> (r: u64)
        ensures
            r == self@.vault_balance,
    {
        self.vault_balance
    }

    /// Index of an entry under (asset, owner), if there is one.
    fn find_locker(&self, asset: Key, owner: Key) -> (r: Option<usize>)
        ensures
            r is None <==> !self@.ledger.contains_key((asset, owner)),
            r matches Some(i) ==> i < self.lockers@.len() && locker_key(self.lockers@[i as int]) == (asset, owner),
    {
        let mut i: usize = 0;
        while i < self.lockers.len()
            invariant
                i <= self.lockers@.len(),
                forall|j: int| 0 <= j < i ==> locker_key(#[trigger] self.lockers@[j]) != (asset, owner),
            decreases self.lockers@.len() - i,
        {
            let l = self.lockers[i];
            if l.asset == asset && l.owner == owner {
                proof { lemma_ledger_contains(self.lockers@, (asset, owner)); }
                return Some(i);
            }
            i = i + 1;
        }
        proof { lemma_ledger_contains(self.lockers@, (asset, owner)); }
        None
    }

    /// Whether some owner has an outstanding deposit of `asset`.
    fn is_asset_locked(&self, asset: Key) -> (r: bool)
        ensures
            r == self@.asset_locked(asset),
    {
        let mut i: usize = 0;
        while i < self.lockers.len()
            invariant
                i <= self.lockers@.len(),
                forall|j: int| 0 <= j < i ==> (#[trigger] self.lockers@[j]).asset != asset,
            decreases self.lockers@.len() - i,
        {
            if self.lockers[i].asset == asset {
                proof {
                    let o = self.lockers@[i as int].owner;
                    lemma_ledger_contains(self.lockers@, (asset, o));
                    assert(self@.ledger.contains_key((asset, o)));
                }
                return true;
            }
            i = i + 1;
        }
        proof {
            assert forall|o: Key| !self@.ledger.contains_key((asset, o)) by {
                lemma_ledger_contains(self.lockers@, (asset, o));
            }
        }
        false
    }

    /// The outstanding deposit of `asset` by `owner`.
    pub fn locker(&self, asset: Key, owner: Key) -> (r: Option<AssetLocker>)
        ensures
            r is None <==> !self@.ledger.contains_key((asset, owner)),
            r matches Some(l) ==> l == self@.ledger[(asset, owner)],
    {
        let mut i: usize = self.lockers.len();
        assert(self.lockers@.take(i as int) =~= self.lockers@);
        while i > 0
            invariant
                i <= self.lockers@.len(),
                self@.ledger.contains_key((asset, owner)) == ledger_of(self.lockers@.take(i as int)).contains_key((asset, owner)),
                ledger_of(self.lockers@.take(i as int)).contains_key((asset, owner))
                    ==> self@.ledger[(asset, owner)] == ledger_of(self.lockers@.take(i as int))[(asset, owner)],
            decreases i,
        {
            let l = self.lockers[i - 1];
            proof { lemma_ledger_take_step(self.lockers@, i - 1); }
            if l.asset == asset && l.owner == owner {
                proof {
                    assert(ledger_of(self.lockers@.take(i as int)).contains_key((asset, owner)));
                }
                return Some(l);
            }
            i = i - 1;
        }
        assert(self.lockers@.take(0) =~= Seq::<AssetLocker>::empty());
        None
    }
    /// Who holds `asset`, if the protocol has ever moved it.
    pub fn custody_of(&self, asset: Key) -> (r: Option<Key>)
        ensures
            r is None <==> !self@.custody.contains_key(asset),
            r matches Some(h) ==> h == self@.custody[asset],
    {
        let mut i: usize = self.moves.len();
        assert(self.moves@.take(i as int) =~= self.moves@);
        while i > 0
            invariant
                i <= self.moves@.len(),
                self@.custody.contains_key(asset) == custody_after(self.moves@.take(i as int)).contains_key(asset),
                custody_after(self.moves@.take(i as int)).contains_key(asset)
                    ==> self@.custody[asset] == custody_after(self.moves@.take(i as int))[asset],
            decreases i,
        {
            let m = self.moves[i - 1];
            proof { lemma_custody_take_step(self.moves@, i - 1); }
            if m.asset == asset {
                return Some(m.to);
            }
            i = i - 1;
        }
        assert(self.moves@.take(0) =~= Seq::<CustodyMove>::empty());
        None
    }

    /// Drops every entry under (asset, owner).
    fn remove_locker(&mut self, asset: Key, owner: Key)
        ensures
            final(self)@ == (EscrowView { ledger: old(self)@.ledger.remove((asset, owner)), ..old(self)@ }),
    {
        let ghost s = self.lockers@;
        let mut kept: Vec<AssetLocker> = Vec::new();
        let mut i: usize = 0;
        assert(s.take(0) =~= Seq::<AssetLocker>::empty());
        assert(ledger_of(Seq::<AssetLocker>::empty()) =~= ledger_of(Seq::<AssetLocker>::empty()).remove((asset, owner)));
        while i < self.lockers.len()
            invariant
                s == self.lockers@,
                i <= s.len(),
                ledger_of(kept@) == ledger_of(s.take(i as int)).remove((asset, owner)),
            decreases s.len() - i,
        {
            let l = self.lockers[i];
            proof { lemma_ledger_take_step(s, i as int); }
            if l.asset == asset && l.owner == owner {
                assert(ledger_of(s.take(i + 1)).remove((asset, owner))
                    =~= ledger_of(s.take(i as int)).remove((asset, owner)));
            } else {
                proof { lemma_ledger_push(kept@, l); }
                kept.push(l);
                assert(ledger_of(s.take(i + 1)).remove((asset, owner))
                    =~= ledger_of(s.take(i as int)).remove((asset, owner)).insert(locker_key(l), l));
            }
            i = i + 1;
        }
        assert(s.take(s.len() as int) =~= s);
        self.lockers = kept;
    }

    fn record_move(&mut self, asset: Key, to: Key)
        ensures
            final(self)@ == (EscrowView { custody: old(self)@.custody.insert(asset, to), ..old(self)@ }),
    {
        let m = CustodyMove { asset, to };
        proof { lemma_custody_push(self.moves@, m); }
        self.moves.push(m);
    }

    /// Creates the singleton with `signer` as authority and the vault at
    /// its address derived from the fixed namespace.
    pub fn initialize_protocol_config(&mut self, signer: Key, fee: u64) -> (r: Result<(), EscrowError>)
        ensures
            r == old(self)@.initialize_outcome(),
            r is Ok ==> final(self)@ == old(self)@.after_initialize(signer, fee),
            r is Err ==> final(self)@ == old(self)@,
            old(self)@.wf() ==> final(self)@.wf(),
    {
        if self.config.is_some() {
            return Err(EscrowError::AlreadyInitialized);
        }
        match find_vault_address() {
            None => Err(EscrowError::VaultAddressUnavailable),
            Some((vault, _bump)) => {
                self.config = Some(ProtocolConfig { authority: signer, vault, fee });
                proof {
                    if old(self)@.wf() {
                        lemma_initialize_keeps_wf(old(self)@, signer, fee);
                    }
                }
                Ok(())
            },
        }
    }

    /// Replaces the fee; only the authority may.
    pub fn set_fee(&mut self, signer: Key, fee: u64) -> (r: Result<(), EscrowError>)
        ensures
            r == old(self)@.set_fee_outcome(signer),
            r is Ok ==> final(self)@ == old(self)@.after_set_fee(fee),
            r is Err ==> final(self)@ == old(self)@,
            old(self)@.wf() ==> final(self)@.wf(),
    {
        match self.config {
            None => Err(EscrowError::NotInitialized),
            Some(c) => {
                if c.authority != signer {
                    return Err(EscrowError::Unauthorized);
                }
                self.config = Some(ProtocolConfig { fee, ..c });
                proof {
                    if old(self)@.wf() {
                        lemma_set_fee_keeps_wf(old(self)@, signer, fee);
                    }
                }
                Ok(())
            },
        }
    }

    /// What a lock must pass before the asset and the fee are moved.
    pub fn check_lock(&self, signer: Key, asset: Key, lamports: u64) -> (r: Result<(), EscrowError>)
        ensures
            r == self@.lock_precheck(signer, asset, lamports),
    {
        match self.config {
            None => Err(EscrowError::NotInitialized),
            Some(c) => {
                if self.find_locker(asset, signer).is_some() {
                    Err(EscrowError::AlreadyLocked)
                } else if lamports != c.fee {
                    Err(EscrowError::InvalidFeeAmount)
                } else {
                    Ok(())
                }
            },
        }
    }

    /// Deposits `asset` by `signer`. `custody_ok` and `payment_ok` are the
    /// results of moving the asset to the vault and the fee from `signer` to
    /// the vault; on any failure nothing is recorded.
    pub fn lock_nft(
        &mut self,
        signer: Key,
        asset: Key,
        lamports: u64,
        now: i64,
        custody_ok: bool,
        payment_ok: bool,
    ) -> (r: Result<(), EscrowError>)
        ensures
            r == old(self)@.lock_outcome(signer, asset, lamports, custody_ok, payment_ok),
            r is Ok ==> final(self)@ == old(self)@.after_lock(signer, asset, lamports, now),
            r is Err ==> final(self)@ == old(self)@,
            old(self)@.wf() ==> final(self)@.wf(),
    {
        let checked = self.check_lock(signer, asset, lamports);
        if checked.is_err() {
            return checked;
        }
        if !custody_ok || self.is_asset_locked(asset) {
            return Err(EscrowError::CustodyTransferFailed);
        }
        let c = self.config.unwrap();
        let balance = match self.vault_balance.checked_add(c.fee) {
            Some(b) => b,
            None => { return Err(EscrowError::PaymentFailed); },
        };
        if !payment_ok {
            return Err(EscrowError::PaymentFailed);
        }
        let l = AssetLocker { owner: signer, asset, locked_at: now, lamports };
        proof { lemma_ledger_push(self.lockers@, l); }
        self.lockers.push(l);
        self.record_move(asset, c.vault);
        self.vault_balance = balance;
        assert(self@ =~= old(self)@.after_lock(signer, asset, lamports, now));
        proof {
            if old(self)@.wf() {
                lemma_lock_keeps_wf(old(self)@, signer, asset, lamports, now);
            }
        }
        Ok(())
    }

    /// What an unlock must pass before the asset is moved back.
    pub fn check_unlock(&self, signer: Key, asset: Key) -> (r: Result<(), EscrowError>)
        ensures
            r == self@.unlock_precheck(signer, asset),
    {
        if self.config.is_none() {
            Err(EscrowError::NotInitialized)
        } else if self.find_locker(asset, signer).is_none() {
            Err(EscrowError::LockerNotFound)
        } else {
            Ok(())
        }
    }

    /// Returns `asset` to `signer`, its depositor. `custody_ok` is the result
    /// of moving it from the vault; on failure the entry stays.
    pub fn unlock_nft(&mut self, signer: Key, asset: Key, custody_ok: bool) -> (r: Result<(), EscrowError>)
        ensures
            r == old(self)@.unlock_outcome(signer, asset, custody_ok),
            r is Ok ==> final(self)@ == old(self)@.after_unlock(signer, asset),
            r is Err ==> final(self)@ == old(self)@,
            old(self)@.wf() ==> final(self)@.wf(),
    {
        let checked = self.check_unlock(signer, asset);
        if checked.is_err() {
            return checked;
        }
        if !custody_ok {
            return Err(EscrowError::CustodyTransferFailed);
        }
        self.remove_locker(asset, signer);
        self.record_move(asset, signer);
        assert(self@ =~= old(self)@.after_unlock(signer, asset));
        proof {
            if old(self)@.wf() {
                lemma_unlock_keeps_wf(old(self)@, signer, asset);
            }
        }
        Ok(())
    }

    /// What a swap must pass before either asset is moved.
    pub fn check_swap(&self, signer: Key, offered: Key, desired: Key, counterparty: Key) -> (r: Result<(), EscrowError>)
        ensures
            r == self@.swap_precheck(signer, offered, desired, counterparty),
    {
        if self.config.is_none() {
            Err(EscrowError::NotInitialized)
        } else if signer == counterparty {
            Err(EscrowError::SelfSwapNotAllowed)
        } else if self.find_locker(offered, signer).is_none()
            || self.find_locker(desired, counterparty).is_none() {
            Err(EscrowError::LockerNotFound)
        } else {
            Ok(())
        }
    }

    /// Exchanges `offered`, deposited by `signer`, for `desired`, deposited
    /// by `counterparty`. `custody_ok` is the result of both moves out of the
    /// vault, which succeed or fail together; on failure both entries stay.
    pub fn swap_nft(
        &mut self,
        signer: Key,
        offered: Key,
        desired: Key,
        counterparty: Key,
        custody_ok: bool,
    ) -> (r: Result<(), EscrowError>)
        ensures
            r == old(self)@.swap_outcome(signer, offered, desired, counterparty, custody_ok),
            r is Ok ==> final(self)@ == old(self)@.after_swap(signer, offered, desired, counterparty),
            r is Err ==> final(self)@ == old(self)@,
            old(self)@.wf() ==> final(self)@.wf(),
    {
        let checked = self.check_swap(signer, offered, desired, counterparty);
        if checked.is_err() {
            return checked;
        }
        if !custody_ok {
            return Err(EscrowError::CustodyTransferFailed);
        }
        self.remove_locker(offered, signer);
        self.remove_locker(desired, counterparty);
        self.record_move(offered, counterparty);
        self.record_move(desired, signer);
        assert(self@ =~= old(self)@.after_swap(signer, offered, desired, counterparty));
        proof {
            if old(self)@.wf() {
                lemma_swap_keeps_wf(old(self)@, signer, offered, desired, counterparty);
            }
        }
        Ok(())
    }
}

} // verus!
