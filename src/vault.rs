use vstd::prelude::*;
use crate::error::{transfer_result, CustomError, Error, TransferError};
use crate::key::Pubkey;
use crate::transfer::TokenTransfer;

verus! {

/// A custodial record that binds one asset unit to its original owner and a
/// lock flag.
#[derive(Clone, Copy, Debug)]
pub struct Vault {
    pub owner: Pubkey,
    pub nft_mint: Pubkey,
    pub is_locked: bool,
}

/// Bytes that a stored vault takes: an 8-byte record tag, the owner, the
/// asset and the lock flag.
pub const VAULT_SPACE: usize = 8 + 32 + 32 + 1;

/// The records of `create_vault`: the newly allocated vault and the signer
/// who becomes its owner.
#[derive(Clone, Copy, Debug)]
pub struct CreateVault {
    pub vault: Vault,
    pub owner: Pubkey,
}

/// The records of `lock_nft`: the vault, the signer who asks for the lock,
/// the signer's token account that holds the asset, and the token account
/// that the vault controls.
#[derive(Clone, Copy, Debug)]
pub struct LockNft {
    pub vault: Vault,
    pub owner: Pubkey,
    pub nft_token_account: Pubkey,
    pub vault_token_account: Pubkey,
}

/// Fills a newly allocated vault: the signer becomes its owner, it custodies
/// `nft_mint`, and it starts unlocked.
pub fn create_vault(ctx: &mut CreateVault, nft_mint: Pubkey)
    ensures
        final(ctx).vault == (Vault { owner: old(ctx).owner, nft_mint, is_locked: false }),
        final(ctx).owner == old(ctx).owner,
{
    ctx.vault.owner = ctx.owner;
    ctx.vault.nft_mint = nft_mint;
    ctx.vault.is_locked = false;
}

/// The first check of a lock request that fails, in order: the signer must
/// be the vault's owner, then the vault must still be unlocked.
pub open spec fn lock_check(ctx: LockNft) -> Option<CustomError> {
    if ctx.owner != ctx.vault.owner {
        Some(CustomError::Unauthorized)
    } else if ctx.vault.is_locked {
        Some(CustomError::AlreadyLocked)
    } else {
        None
    }
}

/// The custody transfer that a lock asks for: one unit from the owner's
/// token account into the vault's, under the owner's consent.
pub open spec fn lock_custody_transfer(ctx: LockNft) -> TokenTransfer {
    TokenTransfer {
        from: ctx.nft_token_account,
        to: ctx.vault_token_account,
        authority: ctx.owner,
        amount: 1,
    }
}

/// What a lock request returns when its custody transfer came back with
/// `outcome`. The checks come first: their error wins over the transfer's.
pub open spec fn lock_result(ctx: LockNft, outcome: Result<(), TransferError>) -> Result<
    (),
    Error,
> {
    match lock_check(ctx) {
        Some(e) => Err(Error::Custom(e)),
        None => transfer_result(outcome),
    }
}

/// The records after a lock request: the vault is locked when the request
/// succeeds, and nothing changes when it fails.
pub open spec fn lock_state(ctx: LockNft, outcome: Result<(), TransferError>) -> LockNft {
    if lock_result(ctx, outcome) is Ok {
        LockNft {
            vault: Vault { owner: ctx.vault.owner, nft_mint: ctx.vault.nft_mint, is_locked: true },
            owner: ctx.owner,
            nft_token_account: ctx.nft_token_account,
            vault_token_account: ctx.vault_token_account,
        }
    } else {
        ctx
    }
}

/// Validates a lock request and names the custody transfer to perform. On an
/// error no transfer is to be made.
pub fn lock_nft_transfer(ctx: &LockNft) -> (r: Result<TokenTransfer, Error>)
    ensures
        match lock_check(*ctx) {
            Some(e) => r == Err::<TokenTransfer, Error>(Error::Custom(e)),
            None => r == Ok::<TokenTransfer, Error>(lock_custody_transfer(*ctx)),
        },
{
    if ctx.vault.owner != ctx.owner {
        return Err(Error::Custom(CustomError::Unauthorized));
    }
    if ctx.vault.is_locked {
        return Err(Error::Custom(CustomError::AlreadyLocked));
    }
    Ok(TokenTransfer {
        from: ctx.nft_token_account,
        to: ctx.vault_token_account,
        authority: ctx.owner,
        amount: 1,
    })
}

/// Completes a lock request, given the outcome of the custody transfer that
/// `lock_nft_transfer` named. The vault is locked only when every check
/// passes and the transfer succeeded; otherwise the records are left as they
/// were.
pub fn lock_nft(ctx: &mut LockNft, outcome: Result<(), TransferError>) -> (r: Result<(), Error>)
    ensures
        r == lock_result(*old(ctx), outcome),
        *final(ctx) == lock_state(*old(ctx), outcome),
{
    if ctx.vault.owner != ctx.owner {
        return Err(Error::Custom(CustomError::Unauthorized));
    }
    if ctx.vault.is_locked {
        return Err(Error::Custom(CustomError::AlreadyLocked));
    }
    match outcome {
        Ok(()) => {
            ctx.vault.is_locked = true;
            Ok(())
        },
        Err(e) => Err(Error::Transfer(e)),
    }
}

/// The vault after a series of lock requests, each with the signer and token
/// accounts of its request and the outcome of its custody transfer. The
/// vault of each request is the one that the requests before it left.
pub open spec fn vault_after(v: Vault, attempts: Seq<(LockNft, Result<(), TransferError>)>) -> Vault
    decreases attempts.len(),
{
    if attempts.len() == 0 {
        v
    } else {
        let prev = vault_after(v, attempts.drop_last());
        let req = attempts.last().0;
        let ctx = LockNft {
            vault: prev,
            owner: req.owner,
            nft_token_account: req.nft_token_account,
            vault_token_account: req.vault_token_account,
        };
        lock_state(ctx, attempts.last().1).vault
    }
}

/// Once a vault is seen locked, it stays locked through every later request;
/// its owner and asset never change.
pub proof fn lemma_lock_is_monotonic(
    v: Vault,
    attempts: Seq<(LockNft, Result<(), TransferError>)>,
    i: int,
    j: int,
)
    requires
        0 <= i <= j <= attempts.len(),
        vault_after(v, attempts.take(i)).is_locked,
    ensures
        vault_after(v, attempts.take(j)).is_locked,
        vault_after(v, attempts.take(j)).owner == v.owner,
        vault_after(v, attempts.take(j)).nft_mint == v.nft_mint,
    decreases j,
{
    if j == 0 {
        assert(attempts.take(0) =~= Seq::<(LockNft, Result<(), TransferError>)>::empty());
    } else if j == i {
        lemma_owner_and_asset_kept(v, attempts, j);
    } else {
        lemma_lock_is_monotonic(v, attempts, i, j - 1);
        assert(attempts.take(j).drop_last() =~= attempts.take(j - 1));
    }
}

proof fn lemma_owner_and_asset_kept(
    v: Vault,
    attempts: Seq<(LockNft, Result<(), TransferError>)>,
    j: int,
)
    requires
        0 <= j <= attempts.len(),
    ensures
        vault_after(v, attempts.take(j)).owner == v.owner,
        vault_after(v, attempts.take(j)).nft_mint == v.nft_mint,
    decreases j,
{
    if j == 0 {
        assert(attempts.take(0) =~= Seq::<(LockNft, Result<(), TransferError>)>::empty());
    } else {
        lemma_owner_and_asset_kept(v, attempts, j - 1);
        assert(attempts.take(j).drop_last() =~= attempts.take(j - 1));
    }
}

/// After a lock that succeeded, a second lock by the same signer fails with
/// `AlreadyLocked` and changes nothing, whatever its custody transfer does;
/// it names no transfer either.
pub proof fn lemma_second_lock_fails(
    ctx: LockNft,
    first: Result<(), TransferError>,
    second: Result<(), TransferError>,
)
    requires
        lock_result(ctx, first) is Ok,
    ensures
        lock_state(ctx, first).vault.is_locked,
        lock_check(lock_state(ctx, first)) == Some(CustomError::AlreadyLocked),
        lock_result(lock_state(ctx, first), second) == Err::<(), Error>(
            Error::Custom(CustomError::AlreadyLocked),
        ),
        lock_state(lock_state(ctx, first), second) == lock_state(ctx, first),
{
}

/// A lock asked for by anyone but the vault's owner fails with
/// `Unauthorized`, names no transfer and leaves the records unchanged,
/// whatever the custody transfer does.
pub proof fn lemma_non_owner_cannot_lock(ctx: LockNft, outcome: Result<(), TransferError>)
    requires
        ctx.owner != ctx.vault.owner,
    ensures
        lock_check(ctx) == Some(CustomError::Unauthorized),
        lock_result(ctx, outcome) == Err::<(), Error>(Error::Custom(CustomError::Unauthorized)),
        lock_state(ctx, outcome) == ctx,
        lock_state(ctx, outcome).vault.is_locked == ctx.vault.is_locked,
{
}

} // verus!
