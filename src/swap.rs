use vstd::prelude::*;
use crate::error::{transfer_result, CustomError, Error, TransferError};
use crate::key::Pubkey;
use crate::transfer::TokenTransfer;

verus! {

/// A sale offer that binds one asset unit to a seller and a price in native
/// currency. Its seller and price never change once it is created.
#[derive(Clone, Copy, Debug)]
pub struct Swap {
    pub nft_mint: Pubkey,
    pub seller: Pubkey,
    pub price: u64,
}

/// Bytes that a stored listing takes: an 8-byte record tag, the asset, the
/// seller and the price.
pub const SWAP_SPACE: usize = 8 + 32 + 32 + 8;

/// The records of `create_swap`: the newly allocated listing and the signer
/// who becomes its seller.
#[derive(Clone, Copy, Debug)]
pub struct CreateSwap {
    pub swap: Swap,
    pub seller: Pubkey,
}

/// The records of `execute_swap`: the listing, the buying signer and the
/// seller's account with their currency balances, the token account that
/// the asset leaves and the buyer's token account that receives it.
///
/// Whether `seller` is the listing's seller, and whether the token accounts
/// belong to seller and buyer, is not checked: the custody layer alone
/// decides whether the asset can move.
#[derive(Clone, Copy, Debug)]
pub struct ExecuteSwap {
    pub swap: Swap,
    pub buyer: Pubkey,
    pub buyer_lamports: u64,
    pub seller: Pubkey,
    pub seller_lamports: u64,
    pub nft_token_account: Pubkey,
    pub buyer_token_account: Pubkey,
}

impl ExecuteSwap {
    /// The records can be settled: one account has one balance, and the
    /// seller's balance can take the price.
    pub open spec fn wf(self) -> bool {
        &&& self.buyer == self.seller ==> self.buyer_lamports == self.seller_lamports
        &&& self.buyer != self.seller ==> self.seller_lamports + self.swap.price <= u64::MAX
    }
}

/// Fills a newly allocated listing: the signer becomes its seller, offering
/// `nft_mint` for `price`. A price of zero is accepted.
pub fn create_swap(ctx: &mut CreateSwap, nft_mint: Pubkey, price: u64)
    ensures
        final(ctx).swap == (Swap { nft_mint, seller: old(ctx).seller, price }),
        final(ctx).seller == old(ctx).seller,
{
    ctx.swap.nft_mint = nft_mint;
    ctx.swap.seller = ctx.seller;
    ctx.swap.price = price;
}

/// The check of a swap: the buyer's balance must cover the price.
pub open spec fn swap_check(ctx: ExecuteSwap) -> Option<CustomError> {
    if ctx.buyer_lamports < ctx.swap.price {
        Some(CustomError::InsufficientFunds)
    } else {
        None
    }
}

/// The custody transfer that a swap asks for: one unit from the seller's
/// token account to the buyer's, under the seller's consent.
pub open spec fn swap_custody_transfer(ctx: ExecuteSwap) -> TokenTransfer {
    TokenTransfer {
        from: ctx.nft_token_account,
        to: ctx.buyer_token_account,
        authority: ctx.seller,
        amount: 1,
    }
}

/// What a swap returns when its custody transfer came back with `outcome`.
pub open spec fn swap_result(ctx: ExecuteSwap, outcome: Result<(), TransferError>) -> Result<
    (),
    Error,
> {
    match swap_check(ctx) {
        Some(e) => Err(Error::Custom(e)),
        None => transfer_result(outcome),
    }
}

/// The records with the price paid: taken from the buyer, given to the
/// seller. Where buyer and seller are one account, its balance is unchanged.
pub open spec fn paid(ctx: ExecuteSwap) -> ExecuteSwap {
    if ctx.buyer == ctx.seller {
        ctx
    } else {
        ExecuteSwap {
            buyer_lamports: (ctx.buyer_lamports - ctx.swap.price) as u64,
            seller_lamports: (ctx.seller_lamports + ctx.swap.price) as u64,
            ..ctx
        }
    }
}

/// The records after a swap: paid when it succeeds, unchanged when it fails.
pub open spec fn swap_state(ctx: ExecuteSwap, outcome: Result<(), TransferError>) -> ExecuteSwap {
    if swap_result(ctx, outcome) is Ok {
        paid(ctx)
    } else {
        ctx
    }
}

/// Validates a swap and names the custody transfer to perform. On an error
/// no transfer is to be made.
pub fn execute_swap_transfer(ctx: &ExecuteSwap) -> (r: Result<TokenTransfer, Error>)
    ensures
        match swap_check(*ctx) {
            Some(e) => r == Err::<TokenTransfer, Error>(Error::Custom(e)),
            None => r == Ok::<TokenTransfer, Error>(swap_custody_transfer(*ctx)),
        },
{
    if ctx.buyer_lamports < ctx.swap.price {
        return Err(Error::Custom(CustomError::InsufficientFunds));
    }
    Ok(TokenTransfer {
        from: ctx.nft_token_account,
        to: ctx.buyer_token_account,
        authority: ctx.seller,
        amount: 1,
    })
}

/// Settles a swap, given the outcome of the custody transfer that
/// `execute_swap_transfer` named. The price moves from buyer to seller only
/// when the balance covers it and the transfer succeeded; otherwise the
/// records are left as they were. The listing is not marked as fulfilled.
pub fn execute_swap(ctx: &mut ExecuteSwap, outcome: Result<(), TransferError>) -> (r: Result<
    (),
    Error,
>)
    requires
        old(ctx).wf(),
    ensures
        r == swap_result(*old(ctx), outcome),
        *final(ctx) == swap_state(*old(ctx), outcome),
{
    let price = ctx.swap.price;
    if ctx.buyer_lamports < price {
        return Err(Error::Custom(CustomError::InsufficientFunds));
    }
    match outcome {
        Ok(()) => {
            if ctx.buyer != ctx.seller {
                ctx.buyer_lamports = ctx.buyer_lamports - price;
                ctx.seller_lamports = ctx.seller_lamports + price;
            }
            Ok(())
        },
        Err(e) => Err(Error::Transfer(e)),
    }
}

/// A swap between two accounts either does all of its work or none: the
/// buyer pays exactly the price, the seller receives exactly the price and
/// the asset's transfer went through; or no balance changes and the asset
/// did not move, since no transfer was asked for or the one asked for failed.
pub proof fn lemma_swap_all_or_nothing(ctx: ExecuteSwap, outcome: Result<(), TransferError>)
    requires
        ctx.wf(),
        ctx.buyer != ctx.seller,
    ensures
        ({
            let after = swap_state(ctx, outcome);
            ||| {
                &&& swap_result(ctx, outcome) is Ok
                &&& swap_check(ctx) is None
                &&& outcome is Ok
                &&& after.buyer_lamports == ctx.buyer_lamports - ctx.swap.price
                &&& after.seller_lamports == ctx.seller_lamports + ctx.swap.price
                &&& after.swap == ctx.swap
            }
            ||| {
                &&& swap_result(ctx, outcome) is Err
                &&& (swap_check(ctx) is Some || outcome is Err)
                &&& after == ctx
            }
        }),
{
}

/// A swap whose buyer cannot cover the price fails with `InsufficientFunds`,
/// names no transfer and leaves every balance as it was.
pub proof fn lemma_insufficient_funds(ctx: ExecuteSwap, outcome: Result<(), TransferError>)
    requires
        ctx.buyer_lamports < ctx.swap.price,
    ensures
        swap_check(ctx) == Some(CustomError::InsufficientFunds),
        swap_result(ctx, outcome) == Err::<(), Error>(
            Error::Custom(CustomError::InsufficientFunds),
        ),
        swap_state(ctx, outcome) == ctx,
{
}

} // verus!
