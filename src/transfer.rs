use vstd::prelude::*;
use crate::key::Pubkey;

verus! {

/// A request to the custody layer: move `amount` units out of the token
/// account `from` into the token account `to`, under the consent of
/// `authority`.
#[derive(Clone, Copy, Debug, PartialEq, Eq)]
pub struct TokenTransfer {
    pub from: Pubkey,
    pub to: Pubkey,
    pub authority: Pubkey,
    pub amount: u64,
}

} // verus!
