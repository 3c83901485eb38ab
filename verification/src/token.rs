use crate::address::Address;
use vstd::prelude::*;

verus! {

/// What the ledger reads of a token-holding account.
#[derive(Clone, Copy, Debug, PartialEq, Eq)]
pub struct TokenAccount {
    /// Address of the account itself.
    pub key: Address,
    /// Asset the account holds.
    pub mint: Address,
    /// Identity that may move the balance.
    pub owner: Address,
    /// Balance held.
    pub amount: u64,
}

/// Request to the token collaborator: move `amount` from one account to another.
#[derive(Clone, Copy, Debug, PartialEq, Eq)]
pub struct Transfer {
    pub from: Address,
    pub to: Address,
    /// Identity that authorises the movement.
    pub authority: Address,
    pub amount: u64,
}

/// Request to the token collaborator: create `amount` new units of `mint` in `to`.
#[derive(Clone, Copy, Debug, PartialEq, Eq)]
pub struct MintTo {
    pub mint: Address,
    pub to: Address,
    /// Identity that authorises the issue.
    pub authority: Address,
    pub amount: u64,
}

/// Request to the token collaborator: destroy `amount` units of `mint` held in `from`.
#[derive(Clone, Copy, Debug, PartialEq, Eq)]
pub struct Burn {
    pub mint: Address,
    pub from: Address,
    /// Identity that authorises the destruction.
    pub authority: Address,
    pub amount: u64,
}

} // verus!
