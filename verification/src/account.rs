//! The accounts an exchange touches, as plain values.

use vstd::prelude::*;
use crate::identity::Identity;

verus! {

/// Names a holding account: the one account in which `owner` holds the asset
/// `mint`.
#[derive(Clone, Copy, Debug, PartialEq, Eq)]
pub struct HoldingId {
    pub owner: Identity,
    pub mint: Identity,
}

/// An asset, with the number of decimal places its amounts are quoted in.
#[derive(Clone, Copy, Debug, PartialEq, Eq)]
pub struct Mint {
    pub key: Identity,
    pub decimals: u8,
}

/// A holding account as read from the ledger: who may move its balance, which
/// asset it holds, and how much.
#[derive(Clone, Copy, Debug, PartialEq, Eq)]
pub struct TokenAccount {
    pub owner: Identity,
    pub mint: Identity,
    pub amount: u64,
}

impl TokenAccount {
    /// The name of this holding account.
    pub open spec fn id(&self) -> HoldingId {
        HoldingId { owner: self.owner, mint: self.mint }
    }

    /// The name of this holding account.
    #[verifier::when_used_as_spec(id)]
    pub fn holding_id(&self) -> (id: HoldingId)
        ensures
            id == self.id(),
    {
        HoldingId { owner: self.owner, mint: self.mint }
    }
}

/// The persistent state of one offer.
#[derive(Clone, Copy, Debug, PartialEq, Eq)]
pub struct Escrow {
    /// Who deposited; never changes.
    pub maker: Identity,
    /// Chosen by the maker, so that one maker can run many offers.
    pub seed: u64,
    /// The asset given.
    pub mint_a: Identity,
    /// The asset asked for.
    pub mint_b: Identity,
    /// How much of `mint_b` fulfils the offer.
    pub receive: u64,
    /// The bump that completes the record's seeds to its address.
    pub bump: u8,
}

/// A record as read from the ledger: its address and its state.
#[derive(Clone, Copy, Debug, PartialEq, Eq)]
pub struct EscrowAccount {
    pub key: Identity,
    pub data: Escrow,
}

} // verus!
