use vstd::prelude::*;
use crate::key::Pubkey;

verus! {

/// A record of which account holds a minted asset.
#[derive(Clone, Copy, Debug)]
pub struct Nft {
    pub owner: Pubkey,
    pub mint: Pubkey,
}

} // verus!
