//! Custodial escrow for non-fungible assets: a vault takes custody of a
//! deposited asset, a ledger records each deposit by (asset, owner), and a
//! deposit is later either returned to its owner or exchanged for another.

pub mod types;
pub mod address;
pub mod model;
pub mod escrow;
pub mod instructions;
pub mod laws;

pub use address::{find_vault_address, PROGRAM_ID_HI, PROGRAM_ID_LO};
pub use types::{AssetLocker, EscrowError, Key, ProtocolConfig};
pub use model::EscrowView;
pub use escrow::Escrow;
pub use instructions::{InitializeProtocolConfig, LockNft, SetFee};
