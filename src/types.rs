use vstd::prelude::*;

verus! {

/// A 32-byte account identity, held as two 128-bit halves.
#[derive(Clone, Copy, Debug, PartialEq, Eq, Structural, Hash)]
pub struct Key {
    pub hi: u128,
    pub lo: u128,
}

impl Key {
    pub fn new(hi: u128, lo: u128) -> (r: Key)
        ensures
            r.hi == hi,
            r.lo == lo,
    {
        Key { hi, lo }
    }
}

/// The protocol-wide singleton: who may change the fee, where custody goes,
/// and what a lock costs.
#[derive(Clone, Copy, Debug, PartialEq, Eq, Structural)]
pub struct ProtocolConfig {
    pub authority: Key,
    pub vault: Key,
    pub fee: u64,
}

/// One ledger entry: a deposit of `asset` by `owner` that is still outstanding.
#[derive(Clone, Copy, Debug, PartialEq, Eq, Structural)]
pub struct AssetLocker {
    pub owner: Key,
    pub asset: Key,
    pub locked_at: i64,
    pub lamports: u64,
}

#[derive(Clone, Copy, Debug, PartialEq, Eq, Structural)]
pub enum EscrowError {
    Unauthorized,
    AlreadyInitialized,
    VaultAddressUnavailable,
    NotInitialized,
    AlreadyLocked,
    LockerNotFound,
    SelfSwapNotAllowed,
    InvalidFeeAmount,
    CustodyTransferFailed,
    PaymentFailed,
}

} // verus!
