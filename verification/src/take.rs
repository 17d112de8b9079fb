//! Taking an offer: the accounts it needs and the instructions it issues.

use vstd::prelude::*;
use crate::account::{EscrowAccount, Mint, TokenAccount};
use crate::authority::{escrow_address, escrow_signer_seeds, escrow_signer_seeds_of, program_address};
use crate::error::EscrowError;
use crate::identity::Identity;
use crate::instruction::{CloseAccount, CloseAccountView, TransferChecked, TransferCheckedView};

verus! {

/// The accounts of one take, as read from the ledger before it runs.
#[derive(Clone, Copy, Debug, PartialEq, Eq)]
pub struct Take {
    /// Who fulfils the offer, and signs.
    pub taker: Identity,
    /// Who made it.
    pub maker: Identity,
    pub mint_a: Mint,
    pub mint_b: Mint,
    /// Where the taker receives asset A.
    pub taker_ata_a: TokenAccount,
    /// Where the taker pays asset B from.
    pub taker_ata_b: TokenAccount,
    /// Where the maker receives asset B.
    pub maker_ata_b: TokenAccount,
    /// The record of the offer.
    pub escrow: EscrowAccount,
    /// The vault that holds the maker's deposit of asset A.
    pub vault: TokenAccount,
}

impl Take {
    /// The seeds that sign for the record: the derived authority of the vault.
    pub open spec fn authority_seeds(&self) -> Seq<Seq<u8>> {
        escrow_signer_seeds(self.maker, self.escrow.data.seed, self.escrow.data.bump)
    }

    /// Every account holds the asset it should: the record names the two mints
    /// supplied, and each holding account holds the mint of its side.
    pub open spec fn mints_match(&self) -> bool {
        &&& self.escrow.data.mint_a == self.mint_a.key
        &&& self.escrow.data.mint_b == self.mint_b.key
        &&& self.taker_ata_a.mint == self.mint_a.key
        &&& self.taker_ata_b.mint == self.mint_b.key
        &&& self.maker_ata_b.mint == self.mint_b.key
        &&& self.vault.mint == self.mint_a.key
    }

    /// Every holding account belongs to the party it should: the taker's two to
    /// the taker, the maker's to the maker, the vault to the record.
    pub open spec fn owners_match(&self) -> bool {
        &&& self.taker_ata_a.owner == self.taker
        &&& self.taker_ata_b.owner == self.taker
        &&& self.maker_ata_b.owner == self.maker
        &&& self.vault.owner == self.escrow.key
    }

    /// The record is an account of its own: its address is neither the taker's
    /// nor the maker's, so that the vault is none of their holding accounts.
    pub open spec fn record_apart(&self) -> bool {
        &&& self.escrow.key != self.taker
        &&& self.escrow.key != self.maker
    }

    /// What the record's stored maker, seed and bump derive under `program`.
    pub open spec fn rederivation(&self, program: Identity) -> Option<Identity> {
        program_address(
            escrow_signer_seeds(
                self.escrow.data.maker,
                self.escrow.data.seed,
                self.escrow.data.bump,
            ),
            program,
        )
    }

    /// The first precondition of a take that these accounts break, if any,
    /// where the record's stored proof derives `rederived`.
    pub open spec fn verdict(&self, rederived: Option<Identity>) -> Option<EscrowError> {
        if !self.mints_match() {
            Some(EscrowError::WrongMint)
        } else if !self.owners_match() || !self.record_apart() {
            Some(EscrowError::WrongOwner)
        } else if self.escrow.data.maker != self.maker {
            Some(EscrowError::WrongMaker)
        } else if rederived != Some(self.escrow.key) {
            Some(EscrowError::AddressMismatch)
        } else if self.taker_ata_b.amount < self.escrow.data.receive {
            Some(EscrowError::InsufficientBalance)
        } else {
            None
        }
    }

    /// The first precondition of a take that these accounts break, if any, for
    /// the escrow program `program`.
    pub open spec fn violation(&self, program: Identity) -> Option<EscrowError> {
        self.verdict(self.rederivation(program))
    }

    /// Tests every precondition of a take before anything moves, given the
    /// address that the record's stored maker, seed and bump derive.
    ///
    /// Refused with the first that fails: a wrong mint, a wrong owner or a
    /// record whose address is also a party's, a wrong maker, a record whose
    /// stored proof does not derive the address it stands at, a taker who holds
    /// less of asset B than the record asks.
    pub fn validate_with(&self, rederived: Option<Identity>) -> (r: Result<(), EscrowError>)
        ensures
            match self.verdict(rederived) {
                Some(e) => r == Err::<(), EscrowError>(e),
                None => r is Ok,
            },
    {
        let data = &self.escrow.data;
        if !(data.mint_a.same(&self.mint_a.key) && data.mint_b.same(&self.mint_b.key)
            && self.taker_ata_a.mint.same(&self.mint_a.key) && self.taker_ata_b.mint.same(
            &self.mint_b.key,
        ) && self.maker_ata_b.mint.same(&self.mint_b.key) && self.vault.mint.same(
            &self.mint_a.key,
        )) {
            return Err(EscrowError::WrongMint);
        }
        if !(self.taker_ata_a.owner.same(&self.taker) && self.taker_ata_b.owner.same(&self.taker)
            && self.maker_ata_b.owner.same(&self.maker) && self.vault.owner.same(
            &self.escrow.key,
        )) {
            return Err(EscrowError::WrongOwner);
        }
        if self.escrow.key.same(&self.taker) || self.escrow.key.same(&self.maker) {
            return Err(EscrowError::WrongOwner);
        }
        if !data.maker.same(&self.maker) {
            return Err(EscrowError::WrongMaker);
        }
        let verifies = match rederived {
            Some(address) => address.same(&self.escrow.key),
            None => false,
        };
        if !verifies {
            return Err(EscrowError::AddressMismatch);
        }
        if self.taker_ata_b.amount < data.receive {
            return Err(EscrowError::InsufficientBalance);
        }
        Ok(())
    }

    /// Tests every precondition of a take, for the escrow program `program`,
    /// before anything moves: re-derives the record's address from its stored
    /// maker, seed and bump, and hands it to [`Take::validate_with`].
    pub fn validate(&self, program: &Identity) -> (r: Result<(), EscrowError>)
        ensures
            match self.violation(*program) {
                Some(e) => r == Err::<(), EscrowError>(e),
                None => r is Ok,
            },
    {
        let data = &self.escrow.data;
        let rederived = escrow_address(&data.maker, data.seed, data.bump, program);
        self.validate_with(rederived)
    }

    /// The payment: exactly `receive` of asset B from the taker to the maker,
    /// signed by the taker.
    pub open spec fn payment(&self) -> TransferCheckedView {
        TransferCheckedView {
            from: self.taker_ata_b.id(),
            to: self.maker_ata_b.id(),
            authority: self.taker,
            mint: self.mint_b.key,
            amount: self.escrow.data.receive,
            decimals: self.mint_b.decimals,
            signer_seeds: None,
        }
    }

    /// The withdrawal: the whole balance of the vault to the taker, signed by
    /// the derived authority.
    pub open spec fn withdrawal(&self) -> TransferCheckedView {
        TransferCheckedView {
            from: self.vault.id(),
            to: self.taker_ata_a.id(),
            authority: self.escrow.key,
            mint: self.mint_a.key,
            amount: self.vault.amount,
            decimals: self.mint_a.decimals,
            signer_seeds: Some(self.authority_seeds()),
        }
    }

    /// The closing of the vault: its custodial deposit goes to the maker, signed
    /// by the derived authority.
    pub open spec fn closing(&self) -> CloseAccountView {
        CloseAccountView {
            account: self.vault.id(),
            destination: self.maker,
            authority: self.escrow.key,
            signer_seeds: Some(self.authority_seeds()),
        }
    }

    /// The instruction that pays the maker.
    pub fn send(&self) -> (ix: TransferChecked)
        ensures
            ix@ == self.payment(),
    {
        TransferChecked {
            from: self.taker_ata_b.holding_id(),
            to: self.maker_ata_b.holding_id(),
            authority: self.taker,
            mint: self.mint_b.key,
            amount: self.escrow.data.receive,
            decimals: self.mint_b.decimals,
            signer_seeds: None,
        }
    }

    /// The instruction that empties the vault into the taker's account.
    ///
    /// The amount is the balance the vault has now, not the amount once
    /// deposited.
    pub fn withdraw(&self) -> (ix: TransferChecked)
        ensures
            ix@ == self.withdrawal(),
    {
        let seeds = escrow_signer_seeds_of(
            &self.maker,
            self.escrow.data.seed,
            self.escrow.data.bump,
        );
        TransferChecked {
            from: self.vault.holding_id(),
            to: self.taker_ata_a.holding_id(),
            authority: self.escrow.key,
            mint: self.mint_a.key,
            amount: self.vault.amount,
            decimals: self.mint_a.decimals,
            signer_seeds: Some(seeds),
        }
    }

    /// The instruction that closes the emptied vault.
    pub fn close(&self) -> (ix: CloseAccount)
        ensures
            ix@ == self.closing(),
    {
        let seeds = escrow_signer_seeds_of(
            &self.maker,
            self.escrow.data.seed,
            self.escrow.data.bump,
        );
        CloseAccount {
            account: self.vault.holding_id(),
            destination: self.maker,
            authority: self.escrow.key,
            signer_seeds: Some(seeds),
        }
    }
}

} // verus!
