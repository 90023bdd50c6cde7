//! An escrow for a single non-fungible asset: a vault that locks the asset
//! under its owner's authority, and a swap listing that exchanges the asset
//! for a fixed price in native currency.
//!
//! Each operation is a pure step on the records it is handed. Where an
//! operation needs the custody layer to move the asset, it is split in two:
//! a first step validates and names the transfer to perform, and a second
//! step takes the transfer's outcome and commits, or leaves every record as
//! it was.

pub mod error;
pub mod key;
pub mod nft;
pub mod swap;
pub mod transfer;
pub mod vault;

pub use error::{CustomError, Error, TransferError};
pub use key::Pubkey;
pub use nft::Nft;
pub use transfer::TokenTransfer;
pub use swap::{
    create_swap, execute_swap, execute_swap_transfer, CreateSwap, ExecuteSwap, Swap, SWAP_SPACE,
};
pub use vault::{
    create_vault, lock_nft, lock_nft_transfer, CreateVault, LockNft, Vault, VAULT_SPACE,
};
