//! The instructions an exchange hands to the ledger, as plain values.

use vstd::prelude::*;
use crate::account::HoldingId;
use crate::identity::Identity;

verus! {

/// Move `amount` of `mint` from one holding account to another.
///
/// `authority` must be the owner of `from`. It signs directly when
/// `signer_seeds` is `None`; otherwise the seeds must re-derive it.
#[derive(Clone, Debug, PartialEq, Eq)]
pub struct TransferChecked {
    pub from: HoldingId,
    pub to: HoldingId,
    pub authority: Identity,
    pub mint: Identity,
    pub amount: u64,
    pub decimals: u8,
    pub signer_seeds: Option<Vec<Vec<u8>>>,
}

/// Close a holding account and pay its custodial deposit to `destination`.
#[derive(Clone, Debug, PartialEq, Eq)]
pub struct CloseAccount {
    pub account: HoldingId,
    pub destination: Identity,
    pub authority: Identity,
    pub signer_seeds: Option<Vec<Vec<u8>>>,
}

/// Issue `amount` new units of `mint` into the holding account `to`.
#[derive(Clone, Debug, PartialEq, Eq)]
pub struct MintTo {
    pub mint: Identity,
    pub to: HoldingId,
    pub authority: Identity,
    pub amount: u64,
    pub signer_seeds: Option<Vec<Vec<u8>>>,
}

/// The bytes of optional signer seeds.
pub open spec fn seeds_view(seeds: Option<Vec<Vec<u8>>>) -> Option<Seq<Seq<u8>>> {
    match seeds {
        Some(s) => Some(s.deep_view()),
        None => None,
    }
}

/// A transfer, with its signer seeds as bytes.
pub struct TransferCheckedView {
    pub from: HoldingId,
    pub to: HoldingId,
    pub authority: Identity,
    pub mint: Identity,
    pub amount: u64,
    pub decimals: u8,
    pub signer_seeds: Option<Seq<Seq<u8>>>,
}

/// A close, with its signer seeds as bytes.
pub struct CloseAccountView {
    pub account: HoldingId,
    pub destination: Identity,
    pub authority: Identity,
    pub signer_seeds: Option<Seq<Seq<u8>>>,
}

/// An issue, with its signer seeds as bytes.
pub struct MintToView {
    pub mint: Identity,
    pub to: HoldingId,
    pub authority: Identity,
    pub amount: u64,
    pub signer_seeds: Option<Seq<Seq<u8>>>,
}

impl View for TransferChecked {
    type V = TransferCheckedView;

    open spec fn view(&self) -> TransferCheckedView {
        TransferCheckedView {
            from: self.from,
            to: self.to,
            authority: self.authority,
            mint: self.mint,
            amount: self.amount,
            decimals: self.decimals,
            signer_seeds: seeds_view(self.signer_seeds),
        }
    }
}

impl View for CloseAccount {
    type V = CloseAccountView;

    open spec fn view(&self) -> CloseAccountView {
        CloseAccountView {
            account: self.account,
            destination: self.destination,
            authority: self.authority,
            signer_seeds: seeds_view(self.signer_seeds),
        }
    }
}

impl View for MintTo {
    type V = MintToView;

    open spec fn view(&self) -> MintToView {
        MintToView {
            mint: self.mint,
            to: self.to,
            authority: self.authority,
            amount: self.amount,
            signer_seeds: seeds_view(self.signer_seeds),
        }
    }
}

} // verus!
