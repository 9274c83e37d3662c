use vstd::prelude::*;
use crate::types::{EscrowError, Key};
use crate::escrow::Escrow;

verus! {

/// The accounts of an initialization: the signer, who becomes the
/// authority. The vault's address is derived, not supplied.
#[derive(Clone, Copy, Debug, PartialEq, Eq, Structural)]
pub struct InitializeProtocolConfig {
    pub signer: Key,
}

impl InitializeProtocolConfig {
    pub fn handler(&self, escrow: &mut Escrow, fee: u64) -> (r: Result<(), EscrowError>)
        ensures
            r == old(escrow)@.initialize_outcome(),
            r is Ok ==> final(escrow)@ == old(escrow)@.after_initialize(self.signer, fee),
            r is Err ==> final(escrow)@ == old(escrow)@,
    {
        escrow.initialize_protocol_config(self.signer, fee)
    }
}

/// The accounts of a fee change: the signer, who must be the authority.
#[derive(Clone, Copy, Debug, PartialEq, Eq, Structural)]
pub struct SetFee {
    pub signer: Key,
}

impl SetFee {
    pub fn handler(&self, escrow: &mut Escrow, fee: u64) -> (r: Result<(), EscrowError>)
        ensures
            r == old(escrow)@.set_fee_outcome(self.signer),
            r is Ok ==> final(escrow)@ == old(escrow)@.after_set_fee(fee),
            r is Err ==> final(escrow)@ == old(escrow)@,
    {
        escrow.set_fee(self.signer, fee)
    }
}

/// The accounts of a deposit: the depositor and the asset.
#[derive(Clone, Copy, Debug, PartialEq, Eq, Structural)]
pub struct LockNft {
    pub signer: Key,
    pub asset: Key,
}

impl LockNft {
    /// `now` is the clock's time; `custody_ok` and `payment_ok` are the
    /// results of moving the asset and the fee to the vault.
    pub fn handler(
        &self,
        escrow: &mut Escrow,
        lamports: u64,
        now: i64,
        custody_ok: bool,
        payment_ok: bool,
    ) -> (r: Result<(), EscrowError>)
        ensures
            r == old(escrow)@.lock_outcome(self.signer, self.asset, lamports, custody_ok, payment_ok),
            r is Ok ==> final(escrow)@ == old(escrow)@.after_lock(self.signer, self.asset, lamports, now),
            r is Err ==> final(escrow)@ == old(escrow)@,
    {
        escrow.lock_nft(self.signer, self.asset, lamports, now, custody_ok, payment_ok)
    }
}

} // verus!
