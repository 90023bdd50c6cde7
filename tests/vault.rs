use mint_nft::{
    create_vault, lock_nft, lock_nft_transfer, CreateVault, CustomError, Error, LockNft, Pubkey,
    TokenTransfer, TransferError, Vault, VAULT_SPACE,
};

fn key(b: u8) -> Pubkey {
    Pubkey::new([b; 32])
}

fn blank_vault() -> Vault {
    Vault { owner: key(0), nft_mint: key(0), is_locked: false }
}

fn new_vault(owner: Pubkey, asset: Pubkey) -> Vault {
    let mut ctx = CreateVault { vault: blank_vault(), owner };
    create_vault(&mut ctx, asset);
    ctx.vault
}

fn lock_request(vault: Vault, caller: Pubkey) -> LockNft {
    LockNft { vault, owner: caller, nft_token_account: key(20), vault_token_account: key(30) }
}

#[test]
fn create_vault_sets_owner_asset_and_unlocked() {
    let mut ctx = CreateVault {
        vault: Vault { owner: key(9), nft_mint: key(9), is_locked: true },
        owner: key(1),
    };
    create_vault(&mut ctx, key(5));
    assert_eq!(ctx.vault.owner, key(1));
    assert_eq!(ctx.vault.nft_mint, key(5));
    assert!(!ctx.vault.is_locked);
    assert_eq!(ctx.owner, key(1));
}

#[test]
fn lock_then_lock_again_scenario() {
    let owner = key(1);
    let asset = key(5);
    let mut ctx = lock_request(new_vault(owner, asset), owner);
    assert!(!ctx.vault.is_locked);

    let planned = lock_nft_transfer(&ctx);
    assert_eq!(
        planned,
        Ok(TokenTransfer { from: key(20), to: key(30), authority: owner, amount: 1 })
    );
    assert_eq!(lock_nft(&mut ctx, Ok(())), Ok(()));
    assert!(ctx.vault.is_locked);

    assert_eq!(lock_nft_transfer(&ctx), Err(Error::Custom(CustomError::AlreadyLocked)));
    assert_eq!(lock_nft(&mut ctx, Ok(())), Err(Error::Custom(CustomError::AlreadyLocked)));
    assert!(ctx.vault.is_locked);
}

#[test]
fn second_lock_fails_whatever_custody_does() {
    let owner = key(1);
    let mut ctx = lock_request(new_vault(owner, key(5)), owner);
    assert_eq!(lock_nft(&mut ctx, Ok(())), Ok(()));
    let failed = Err(TransferError { code: 3 });
    assert_eq!(lock_nft(&mut ctx, failed), Err(Error::Custom(CustomError::AlreadyLocked)));
    assert!(ctx.vault.is_locked);
}

#[test]
fn non_owner_lock_is_unauthorized() {
    let mut ctx = lock_request(new_vault(key(1), key(5)), key(2));
    assert_eq!(lock_nft_transfer(&ctx), Err(Error::Custom(CustomError::Unauthorized)));
    assert_eq!(lock_nft(&mut ctx, Ok(())), Err(Error::Custom(CustomError::Unauthorized)));
    assert!(!ctx.vault.is_locked);
    assert_eq!(ctx.vault.owner, key(1));
}

#[test]
fn non_owner_on_locked_vault_is_unauthorized_first() {
    let owner = key(1);
    let mut ctx = lock_request(new_vault(owner, key(5)), owner);
    assert_eq!(lock_nft(&mut ctx, Ok(())), Ok(()));
    ctx.owner = key(2);
    assert_eq!(lock_nft(&mut ctx, Ok(())), Err(Error::Custom(CustomError::Unauthorized)));
    assert!(ctx.vault.is_locked);
}

#[test]
fn failed_custody_transfer_leaves_vault_unlocked() {
    let owner = key(1);
    let mut ctx = lock_request(new_vault(owner, key(5)), owner);
    let outcome = Err(TransferError { code: 17 });
    assert_eq!(lock_nft(&mut ctx, outcome), Err(Error::Transfer(TransferError { code: 17 })));
    assert!(!ctx.vault.is_locked);
    assert_eq!(lock_nft(&mut ctx, Ok(())), Ok(()));
    assert!(ctx.vault.is_locked);
}

#[test]
fn keys_compare_by_every_byte() {
    let mut bytes = [7u8; 32];
    let a = Pubkey::new(bytes);
    bytes[31] = 8;
    let b = Pubkey::new(bytes);
    assert!(a != b);
    assert!(a == Pubkey::new([7u8; 32]));
    assert_eq!(b.to_bytes()[31], 8);
}

#[test]
fn error_messages() {
    assert_eq!(CustomError::Unauthorized.message(), "Unauthorized.");
    assert_eq!(CustomError::AlreadyLocked.message(), "NFT is already locked.");
    assert_eq!(CustomError::InsufficientFunds.message(), "Insufficient funds to execute swap.");
}

#[test]
fn vault_space_matches_layout() {
    assert_eq!(VAULT_SPACE, 73);
}
