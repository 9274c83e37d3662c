use vstd::prelude::*;
use anchor_lang::prelude::Pubkey;
use crate::types::Key;

verus! {

/// The program's own address, GBcsuNXsnyD6QhLQoHHaCfBpePQALzBE5qUCHYbdc9ap,
/// as two big-endian halves.
pub const PROGRAM_ID_HI: u128 = 299863861237297655587338589068137507938;
pub const PROGRAM_ID_LO: u128 = 330151372493106117401909855920403995777;

pub open spec fn program_id() -> Key {
    Key { hi: PROGRAM_ID_HI, lo: PROGRAM_ID_LO }
}

/// The namespace the vault's address is derived from: the bytes of "vault".
pub open spec fn vault_seed() -> Seq<u8> {
    seq![118u8, 97u8, 117u8, 108u8, 116u8]
}

/// The program-derived address for one seed under a program, with its bump,
/// if one exists.
pub uninterp spec fn program_address(seed: Seq<u8>, program: Key) -> Option<(Key, u8)>;

/// Where the vault lives: derived from the fixed namespace alone.
pub open spec fn vault_address() -> Option<(Key, u8)> {
    program_address(vault_seed(), program_id())
}

/// Relies on `Pubkey::try_find_program_address` (solana-program, through
/// anchor_lang): a result that depends on the seeds and the program id alone,
/// and `None` where no bump gives an address off the curve.
#[verifier::external_body]
fn find_program_address(seed: &[u8], program: Key) -> (r: Option<(Key, u8)>)
    ensures
        r == program_address(seed@, program),
{
    let mut id = [0u8; 32];
    id[..16].copy_from_slice(&program.hi.to_be_bytes());
    id[16..].copy_from_slice(&program.lo.to_be_bytes());
    let (a, bump) = Pubkey::try_find_program_address(&[seed], &Pubkey::new_from_array(id))?;
    let (hi, lo) = a.as_ref().split_at(16);
    Some((Key::new(u128::from_be_bytes(hi.try_into().ok()?), u128::from_be_bytes(lo.try_into().ok()?)), bump))
}

/// Derives the vault's address from the fixed namespace and the program id.
pub fn find_vault_address() -> (r: Option<(Key, u8)>)
    ensures
        r == vault_address(),
{
    let seed: Vec<u8> = vec![118u8, 97u8, 117u8, 108u8, 116u8];
    assert(seed@ =~= vault_seed());
    find_program_address(seed.as_slice(), Key::new(PROGRAM_ID_HI, PROGRAM_ID_LO))
}

} // verus!
