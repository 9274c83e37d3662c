use vstd::prelude::*;
use crate::types::{AssetLocker, EscrowError, Key, ProtocolConfig};
use crate::address::vault_address;

verus! {

/// The abstract state of the protocol.
///   `config`:  the singleton, once initialized;
///   `ledger`:  outstanding deposits, keyed by (asset, owner);
///   `custody`: for each asset the protocol has moved, who holds it now;
///   `vault_balance`: the fees the vault has collected.
pub struct EscrowView {
    pub config: Option<ProtocolConfig>,
    pub ledger: Map<(Key, Key), AssetLocker>,
    pub custody: Map<Key, Key>,
    pub vault_balance: u64,
}

impl EscrowView {
    /// Some owner has an outstanding deposit of `asset`.
    pub open spec fn asset_locked(self, asset: Key) -> bool {
        exists|o: Key| #[trigger] self.ledger.contains_key((asset, o))
    }

    pub open spec fn vault(self) -> Key {
        self.config.unwrap().vault
    }

    pub open spec fn fee(self) -> u64 {
        self.config.unwrap().fee
    }

    /// The states the operations can reach from a fresh protocol:
    ///   entries exist only once the protocol is initialized;
    ///   each entry is filed under its own asset and owner;
    ///   each asset has at most one entry;
    ///   every locked asset is in the vault's custody.
    pub open spec fn wf(self) -> bool {
        &&& self.config is None ==> self.ledger.is_empty()
        &&& forall|a: Key, o: Key| #[trigger] self.ledger.contains_key((a, o))
            ==> self.ledger[(a, o)].asset == a && self.ledger[(a, o)].owner == o
        &&& forall|a: Key, o1: Key, o2: Key|
            #[trigger] self.ledger.contains_key((a, o1)) && #[trigger] self.ledger.contains_key((a, o2))
            ==> o1 == o2
        &&& forall|a: Key, o: Key| #[trigger] self.ledger.contains_key((a, o))
            ==> self.custody.contains_key(a) && self.custody[a] == self.vault()
    }

    // ---- Initialize ----

    /// The vault's address comes from the fixed namespace, never from the
    /// caller.
    pub open spec fn initialize_outcome(self) -> Result<(), EscrowError> {
        if self.config is Some {
            Err(EscrowError::AlreadyInitialized)
        } else if vault_address() is None {
            Err(EscrowError::VaultAddressUnavailable)
        } else {
            Ok(())
        }
    }

    pub open spec fn after_initialize(self, signer: Key, fee: u64) -> EscrowView {
        EscrowView {
            config: Some(ProtocolConfig { authority: signer, vault: vault_address().unwrap().0, fee }),
            ..self
        }
    }

    // ---- SetFee ----

    pub open spec fn set_fee_outcome(self, signer: Key) -> Result<(), EscrowError> {
        if self.config is None {
            Err(EscrowError::NotInitialized)
        } else if self.config.unwrap().authority != signer {
            Err(EscrowError::Unauthorized)
        } else {
            Ok(())
        }
    }

    pub open spec fn after_set_fee(self, fee: u64) -> EscrowView {
        EscrowView {
            config: Some(ProtocolConfig { fee, ..self.config.unwrap() }),
            ..self
        }
    }

    // ---- Lock ----

    /// Checks made before any outside call: the protocol exists, `signer`
    /// has no outstanding deposit of the asset, and the offered fee is the
    /// current one.
    pub open spec fn lock_precheck(self, signer: Key, asset: Key, lamports: u64) -> Result<(), EscrowError> {
        if self.config is None {
            Err(EscrowError::NotInitialized)
        } else if self.ledger.contains_key((asset, signer)) {
            Err(EscrowError::AlreadyLocked)
        } else if lamports != self.fee() {
            Err(EscrowError::InvalidFeeAmount)
        } else {
            Ok(())
        }
    }

    /// The whole lock, given whether the custody transfer to the vault and
    /// the fee payment went through. An asset that the vault already holds
    /// for another owner cannot be handed over by `signer`, so its transfer
    /// fails; a payment that would overflow the vault's balance fails as the
    /// payment primitive does.
    pub open spec fn lock_outcome(self, signer: Key, asset: Key, lamports: u64, custody_ok: bool, payment_ok: bool) -> Result<(), EscrowError> {
        if self.lock_precheck(signer, asset, lamports) is Err {
            self.lock_precheck(signer, asset, lamports)
        } else if !custody_ok || self.asset_locked(asset) {
            Err(EscrowError::CustodyTransferFailed)
        } else if !payment_ok || self.vault_balance + self.fee() > u64::MAX {
            Err(EscrowError::PaymentFailed)
        } else {
            Ok(())
        }
    }

    pub open spec fn after_lock(self, signer: Key, asset: Key, lamports: u64, now: i64) -> EscrowView {
        EscrowView {
            ledger: self.ledger.insert(
                (asset, signer),
                AssetLocker { owner: signer, asset, locked_at: now, lamports },
            ),
            custody: self.custody.insert(asset, self.vault()),
            vault_balance: (self.vault_balance + self.fee()) as u64,
            ..self
        }
    }

    // ---- Unlock ----

    pub open spec fn unlock_precheck(self, signer: Key, asset: Key) -> Result<(), EscrowError> {
        if self.config is None {
            Err(EscrowError::NotInitialized)
        } else if !self.ledger.contains_key((asset, signer)) {
            Err(EscrowError::LockerNotFound)
        } else {
            Ok(())
        }
    }

    pub open spec fn unlock_outcome(self, signer: Key, asset: Key, custody_ok: bool) -> Result<(), EscrowError> {
        if self.unlock_precheck(signer, asset) is Err {
            self.unlock_precheck(signer, asset)
        } else if !custody_ok {
            Err(EscrowError::CustodyTransferFailed)
        } else {
            Ok(())
        }
    }

    pub open spec fn after_unlock(self, signer: Key, asset: Key) -> EscrowView {
        EscrowView {
            ledger: self.ledger.remove((asset, signer)),
            custody: self.custody.insert(asset, signer),
            ..self
        }
    }

    // ---- Swap ----

    /// `signer` offers `offered`, which it has locked, for `desired`, which
    /// `counterparty` has locked.
    pub open spec fn swap_precheck(self, signer: Key, offered: Key, desired: Key, counterparty: Key) -> Result<(), EscrowError> {
        if self.config is None {
            Err(EscrowError::NotInitialized)
        } else if signer == counterparty {
            Err(EscrowError::SelfSwapNotAllowed)
        } else if !self.ledger.contains_key((offered, signer))
            || !self.ledger.contains_key((desired, counterparty)) {
            Err(EscrowError::LockerNotFound)
        } else {
            Ok(())
        }
    }

    /// The whole swap, given whether both custody transfers went through.
    pub open spec fn swap_outcome(self, signer: Key, offered: Key, desired: Key, counterparty: Key, custody_ok: bool) -> Result<(), EscrowError> {
        if self.swap_precheck(signer, offered, desired, counterparty) is Err {
            self.swap_precheck(signer, offered, desired, counterparty)
        } else if !custody_ok {
            Err(EscrowError::CustodyTransferFailed)
        } else {
            Ok(())
        }
    }

    pub open spec fn after_swap(self, signer: Key, offered: Key, desired: Key, counterparty: Key) -> EscrowView {
        EscrowView {
            ledger: self.ledger.remove((offered, signer)).remove((desired, counterparty)),
            custody: self.custody.insert(offered, counterparty).insert(desired, signer),
            ..self
        }
    }
}

} // verus!
