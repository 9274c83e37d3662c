use anchor_lang::prelude::Pubkey;
use nft_vault_swap::{
    find_vault_address, Escrow, EscrowError, InitializeProtocolConfig, Key, LockNft, SetFee, PROGRAM_ID_HI,
    PROGRAM_ID_LO,
};

fn key(n: u128) -> Key {
    Key::new(0, n)
}

fn admin() -> Key {
    key(1)
}

fn key_of(p: &Pubkey) -> Key {
    let b = p.to_bytes();
    let mut hi = [0u8; 16];
    let mut lo = [0u8; 16];
    hi.copy_from_slice(&b[..16]);
    lo.copy_from_slice(&b[16..]);
    Key::new(u128::from_be_bytes(hi), u128::from_be_bytes(lo))
}

fn program() -> Pubkey {
    "GBcsuNXsnyD6QhLQoHHaCfBpePQALzBE5qUCHYbdc9ap".parse().unwrap()
}

fn vault() -> Key {
    key_of(&Pubkey::find_program_address(&[b"vault"], &program()).0)
}

fn alice() -> Key {
    key(10)
}

fn bob() -> Key {
    key(11)
}

fn carol() -> Key {
    key(12)
}

fn asset_x() -> Key {
    key(100)
}

fn asset_y() -> Key {
    key(101)
}

fn asset_z() -> Key {
    key(102)
}

fn initialized(fee: u64) -> Escrow {
    let mut e = Escrow::new();
    assert_eq!(e.initialize_protocol_config(admin(), fee), Ok(()));
    e
}

#[test]
fn lock_then_unlock_keeps_fee() {
    let mut e = initialized(100);
    assert_eq!(e.lock_nft(alice(), asset_x(), 100, 1_700_000_000, true, true), Ok(()));
    assert_eq!(e.vault_balance(), 100);
    let entry = e.locker(asset_x(), alice()).unwrap();
    assert_eq!(entry.lamports, 100);
    assert_eq!(entry.owner, alice());
    assert_eq!(entry.asset, asset_x());
    assert_eq!(entry.locked_at, 1_700_000_000);
    assert_eq!(e.custody_of(asset_x()), Some(vault()));

    assert_eq!(e.unlock_nft(alice(), asset_x(), true), Ok(()));
    assert_eq!(e.custody_of(asset_x()), Some(alice()));
    assert_eq!(e.locker(asset_x(), alice()), None);
    assert_eq!(e.vault_balance(), 100);
}

#[test]
fn swap_exchanges_custody() {
    let mut e = initialized(100);
    assert_eq!(e.lock_nft(bob(), asset_y(), 100, 5, true, true), Ok(()));
    assert_eq!(e.lock_nft(carol(), asset_z(), 100, 6, true, true), Ok(()));
    assert_eq!(e.vault_balance(), 200);
    assert_eq!(e.swap_nft(bob(), asset_y(), asset_z(), carol(), true), Ok(()));
    assert_eq!(e.custody_of(asset_y()), Some(carol()));
    assert_eq!(e.custody_of(asset_z()), Some(bob()));
    assert_eq!(e.locker(asset_y(), bob()), None);
    assert_eq!(e.locker(asset_z(), carol()), None);
    assert_eq!(e.swap_nft(bob(), asset_y(), asset_z(), carol(), true), Err(EscrowError::LockerNotFound));
    assert_eq!(e.unlock_nft(bob(), asset_y(), true), Err(EscrowError::LockerNotFound));
    assert_eq!(e.unlock_nft(carol(), asset_z(), true), Err(EscrowError::LockerNotFound));
}

#[test]
fn relock_is_refused() {
    let mut e = initialized(100);
    assert_eq!(e.lock_nft(alice(), asset_x(), 100, 1, true, true), Ok(()));
    assert_eq!(e.lock_nft(alice(), asset_x(), 100, 2, true, true), Err(EscrowError::AlreadyLocked));
    assert_eq!(e.lock_nft(bob(), asset_x(), 100, 2, true, true), Err(EscrowError::CustodyTransferFailed));
    assert_eq!(e.lock_nft(bob(), asset_x(), 99, 2, true, true), Err(EscrowError::InvalidFeeAmount));
    assert_eq!(e.locker(asset_x(), bob()), None);
    assert_eq!(e.locker(asset_x(), alice()).unwrap().locked_at, 1);
    assert_eq!(e.vault_balance(), 100);
}

#[test]
fn second_unlock_is_refused() {
    let mut e = initialized(100);
    assert_eq!(e.lock_nft(alice(), asset_x(), 100, 1, true, true), Ok(()));
    assert_eq!(e.unlock_nft(alice(), asset_x(), true), Ok(()));
    assert_eq!(e.unlock_nft(alice(), asset_x(), true), Err(EscrowError::LockerNotFound));
}

#[test]
fn unlock_by_someone_else_is_refused() {
    let mut e = initialized(100);
    assert_eq!(e.lock_nft(alice(), asset_x(), 100, 1, true, true), Ok(()));
    assert_eq!(e.unlock_nft(bob(), asset_x(), true), Err(EscrowError::LockerNotFound));
    assert_eq!(e.custody_of(asset_x()), Some(vault()));
    assert!(e.locker(asset_x(), alice()).is_some());
}

#[test]
fn self_swap_is_refused() {
    let mut e = initialized(100);
    assert_eq!(e.lock_nft(bob(), asset_y(), 100, 1, true, true), Ok(()));
    assert_eq!(e.lock_nft(bob(), asset_z(), 100, 2, true, true), Ok(()));
    assert_eq!(e.swap_nft(bob(), asset_y(), asset_z(), bob(), true), Err(EscrowError::SelfSwapNotAllowed));
    assert!(e.locker(asset_y(), bob()).is_some());
    assert!(e.locker(asset_z(), bob()).is_some());
    assert_eq!(e.custody_of(asset_y()), Some(vault()));
    assert_eq!(e.custody_of(asset_z()), Some(vault()));
}

#[test]
fn wrong_fee_is_refused() {
    let mut e = initialized(100);
    assert_eq!(e.check_lock(alice(), asset_x(), 99), Err(EscrowError::InvalidFeeAmount));
    assert_eq!(e.lock_nft(alice(), asset_x(), 99, 1, true, true), Err(EscrowError::InvalidFeeAmount));
    assert_eq!(e.lock_nft(alice(), asset_x(), 101, 1, true, true), Err(EscrowError::InvalidFeeAmount));
    assert_eq!(e.vault_balance(), 0);
    assert_eq!(e.custody_of(asset_x()), None);
    assert_eq!(e.locker(asset_x(), alice()), None);
}

#[test]
fn set_fee_by_authority_only() {
    let mut e = initialized(100);
    assert_eq!(e.lock_nft(alice(), asset_x(), 100, 1, true, true), Ok(()));
    assert_eq!(e.set_fee(bob(), 5), Err(EscrowError::Unauthorized));
    assert_eq!(e.config().unwrap().fee, 100);
    assert_eq!(e.set_fee(admin(), 250), Ok(()));
    let c = e.config().unwrap();
    assert_eq!(c.fee, 250);
    assert_eq!(c.authority, admin());
    assert_eq!(c.vault, vault());
    assert_eq!(e.locker(asset_x(), alice()).unwrap().lamports, 100);
    assert_eq!(e.lock_nft(bob(), asset_y(), 100, 2, true, true), Err(EscrowError::InvalidFeeAmount));
    assert_eq!(e.lock_nft(bob(), asset_y(), 250, 2, true, true), Ok(()));
    assert_eq!(e.vault_balance(), 350);
}

#[test]
fn initialize_twice_is_refused() {
    let mut e = initialized(100);
    assert_eq!(e.initialize_protocol_config(bob(), 7), Err(EscrowError::AlreadyInitialized));
    let c = e.config().unwrap();
    assert_eq!(c.authority, admin());
    assert_eq!(c.vault, vault());
    assert_eq!(c.fee, 100);
}

#[test]
fn operations_before_initialize_are_refused() {
    let mut e = Escrow::new();
    assert_eq!(e.config(), None);
    assert_eq!(e.set_fee(admin(), 1), Err(EscrowError::NotInitialized));
    assert_eq!(e.lock_nft(alice(), asset_x(), 0, 1, true, true), Err(EscrowError::NotInitialized));
    assert_eq!(e.unlock_nft(alice(), asset_x(), true), Err(EscrowError::NotInitialized));
    assert_eq!(e.swap_nft(alice(), asset_x(), asset_y(), bob(), true), Err(EscrowError::NotInitialized));
}

#[test]
fn failed_custody_transfer_leaves_no_trace() {
    let mut e = initialized(100);
    assert_eq!(e.lock_nft(alice(), asset_x(), 100, 1, false, true), Err(EscrowError::CustodyTransferFailed));
    assert_eq!(e.locker(asset_x(), alice()), None);
    assert_eq!(e.custody_of(asset_x()), None);
    assert_eq!(e.vault_balance(), 0);

    assert_eq!(e.lock_nft(alice(), asset_x(), 100, 1, true, true), Ok(()));
    assert_eq!(e.unlock_nft(alice(), asset_x(), false), Err(EscrowError::CustodyTransferFailed));
    assert!(e.locker(asset_x(), alice()).is_some());
    assert_eq!(e.custody_of(asset_x()), Some(vault()));
}

#[test]
fn failed_payment_leaves_no_trace() {
    let mut e = initialized(100);
    assert_eq!(e.lock_nft(alice(), asset_x(), 100, 1, true, false), Err(EscrowError::PaymentFailed));
    assert_eq!(e.locker(asset_x(), alice()), None);
    assert_eq!(e.custody_of(asset_x()), None);
    assert_eq!(e.vault_balance(), 0);
}

#[test]
fn balance_overflow_fails_payment() {
    let mut e = initialized(u64::MAX);
    assert_eq!(e.lock_nft(alice(), asset_x(), u64::MAX, 1, true, true), Ok(()));
    assert_eq!(e.vault_balance(), u64::MAX);
    assert_eq!(e.lock_nft(bob(), asset_y(), u64::MAX, 2, true, true), Err(EscrowError::PaymentFailed));
    assert_eq!(e.locker(asset_y(), bob()), None);
    assert_eq!(e.vault_balance(), u64::MAX);
}

#[test]
fn failed_swap_keeps_both_entries() {
    let mut e = initialized(0);
    assert_eq!(e.lock_nft(bob(), asset_y(), 0, 1, true, true), Ok(()));
    assert_eq!(e.lock_nft(carol(), asset_z(), 0, 1, true, true), Ok(()));
    assert_eq!(e.swap_nft(bob(), asset_y(), asset_z(), carol(), false), Err(EscrowError::CustodyTransferFailed));
    assert!(e.locker(asset_y(), bob()).is_some());
    assert!(e.locker(asset_z(), carol()).is_some());
    assert_eq!(e.custody_of(asset_y()), Some(vault()));
    assert_eq!(e.custody_of(asset_z()), Some(vault()));
}

#[test]
fn swap_needs_both_entries() {
    let mut e = initialized(0);
    assert_eq!(e.lock_nft(bob(), asset_y(), 0, 1, true, true), Ok(()));
    assert_eq!(e.swap_nft(bob(), asset_y(), asset_z(), carol(), true), Err(EscrowError::LockerNotFound));
    assert_eq!(e.swap_nft(carol(), asset_z(), asset_y(), bob(), true), Err(EscrowError::LockerNotFound));
    assert_eq!(e.check_swap(bob(), asset_y(), asset_z(), carol()), Err(EscrowError::LockerNotFound));
    assert!(e.locker(asset_y(), bob()).is_some());
}

#[test]
fn relock_after_unlock_is_allowed() {
    let mut e = initialized(100);
    assert_eq!(e.lock_nft(alice(), asset_x(), 100, 1, true, true), Ok(()));
    assert_eq!(e.check_unlock(alice(), asset_x()), Ok(()));
    assert_eq!(e.unlock_nft(alice(), asset_x(), true), Ok(()));
    assert_eq!(e.check_lock(alice(), asset_x(), 100), Ok(()));
    assert_eq!(e.lock_nft(alice(), asset_x(), 100, 9, true, true), Ok(()));
    assert_eq!(e.locker(asset_x(), alice()).unwrap().locked_at, 9);
    assert_eq!(e.vault_balance(), 200);
}

#[test]
fn instruction_contexts_drive_the_escrow() {
    let mut e = Escrow::new();
    let init = InitializeProtocolConfig { signer: admin() };
    assert_eq!(init.handler(&mut e, 100), Ok(()));
    assert_eq!(init.handler(&mut e, 100), Err(EscrowError::AlreadyInitialized));
    assert_eq!(SetFee { signer: alice() }.handler(&mut e, 1), Err(EscrowError::Unauthorized));
    assert_eq!(SetFee { signer: admin() }.handler(&mut e, 40), Ok(()));
    let lock = LockNft { signer: alice(), asset: asset_x() };
    assert_eq!(lock.handler(&mut e, 100, 3, true, true), Err(EscrowError::InvalidFeeAmount));
    assert_eq!(lock.handler(&mut e, 40, 3, true, true), Ok(()));
    assert_eq!(lock.handler(&mut e, 40, 4, true, true), Err(EscrowError::AlreadyLocked));
    assert_eq!(e.locker(asset_x(), alice()).unwrap().lamports, 40);
    assert_eq!(e.vault_balance(), 40);
}

#[test]
fn vault_address_is_derived_from_the_namespace() {
    assert_eq!(key_of(&program()), Key::new(PROGRAM_ID_HI, PROGRAM_ID_LO));
    let (derived, bump) = find_vault_address().unwrap();
    let (expected, expected_bump) = Pubkey::find_program_address(&[b"vault"], &program());
    assert_eq!(derived, key_of(&expected));
    assert_eq!(bump, expected_bump);
    assert_ne!(derived, key_of(&program()));

    let mut first = Escrow::new();
    let mut second = Escrow::new();
    assert_eq!(first.initialize_protocol_config(alice(), 1), Ok(()));
    assert_eq!(second.initialize_protocol_config(bob(), 2), Ok(()));
    assert_eq!(first.config().unwrap().vault, second.config().unwrap().vault);
    assert_eq!(first.config().unwrap().vault, vault());
}
