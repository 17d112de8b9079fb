//! The three operations of an exchange: make an offer, take it, or refund it.
//!
//! Each runs as one unit against the ledger: it takes effect in full, or it is
//! refused and the ledger stays as it was.
//!
//! [`Ledger::make`], [`Ledger::take`] and [`Ledger::refund`] gather the
//! evidence themselves, and so does [`Ledger::proof_of`]: they ask whether the
//! signer's address lies on the curve, which a program built for the chain
//! cannot do, and are for use off the chain. [`Ledger::make_at`],
//! [`Ledger::take_with`] and [`Ledger::refund_with`] take the evidence as an
//! argument.

use vstd::prelude::*;
use crate::account::{Escrow, EscrowAccount, HoldingId, Mint, TokenAccount};
use crate::authority::{
    can_sign, escrow_address, escrow_home, escrow_signer_seeds, escrow_signer_seeds_of,
    find_escrow_address, on_curve, program_address,
};
use crate::error::EscrowError;
use crate::identity::Identity;
use crate::instruction::{CloseAccount, CloseAccountView, TransferChecked, TransferCheckedView};
use crate::laws::{
    make_settlement, make_settles, refund_settlement, refund_settles, take_settlement,
    take_settles,
};
use crate::ledger::{step_done, Evidence, Ledger, LedgerState, Record};
use crate::take::Take;

verus! {

/// What a maker offers: `deposit` of asset A now, for `receive` of asset B.
#[derive(Clone, Copy, Debug, PartialEq, Eq)]
pub struct Make {
    /// Who deposits, and signs.
    pub maker: Identity,
    pub mint_a: Mint,
    pub mint_b: Mint,
    /// Tells this offer from the maker's other offers.
    pub seed: u64,
    /// How much of asset B fulfils the offer; more than zero.
    pub receive: u64,
    /// How much of asset A goes into the vault.
    pub deposit: u64,
}

/// Where the search for the home of a record ended: the address, the bump that
/// completes its seeds, and whether the address lies on the curve.
#[derive(Clone, Copy, Debug, PartialEq, Eq)]
pub struct Home {
    pub address: Identity,
    pub bump: u8,
    pub on_curve: bool,
}

/// The accounts a taker names to take an offer.
#[derive(Clone, Copy, Debug, PartialEq, Eq)]
pub struct TakeAccounts {
    /// Who fulfils the offer, and signs.
    pub taker: Identity,
    pub maker: Identity,
    pub mint_a: Mint,
    pub mint_b: Mint,
    /// The address of the record.
    pub escrow: Identity,
}

/// The accounts a maker names to cancel an offer.
#[derive(Clone, Copy, Debug, PartialEq, Eq)]
pub struct Refund {
    /// Who made the offer, and signs.
    pub maker: Identity,
    pub mint_a: Mint,
    /// The address of the record.
    pub escrow: Identity,
}

impl Make {
    /// Where the maker pays the deposit from.
    pub open spec fn source(&self) -> HoldingId {
        HoldingId { owner: self.maker, mint: self.mint_a.key }
    }

    /// The record this offer opens, once `bump` completes its seeds.
    pub open spec fn record(&self, bump: u8) -> Escrow {
        Escrow {
            maker: self.maker,
            seed: self.seed,
            mint_a: self.mint_a.key,
            mint_b: self.mint_b.key,
            receive: self.receive,
            bump,
        }
    }

    /// The deposit: `deposit` of asset A from the maker into the vault of the
    /// record at `address`, signed by the maker.
    pub open spec fn funding(&self, address: Identity) -> TransferCheckedView {
        TransferCheckedView {
            from: self.source(),
            to: HoldingId { owner: address, mint: self.mint_a.key },
            authority: self.maker,
            mint: self.mint_a.key,
            amount: self.deposit,
            decimals: self.mint_a.decimals,
            signer_seeds: None,
        }
    }

    /// The instruction that moves the deposit into the vault of the record at
    /// `address`.
    pub fn fund(&self, address: &Identity) -> (ix: TransferChecked)
        ensures
            ix@ == self.funding(*address),
    {
        TransferChecked {
            from: HoldingId { owner: self.maker, mint: self.mint_a.key },
            to: HoldingId { owner: *address, mint: self.mint_a.key },
            authority: self.maker,
            mint: self.mint_a.key,
            amount: self.deposit,
            decimals: self.mint_a.decimals,
            signer_seeds: None,
        }
    }
}

impl Refund {
    /// Where the maker receives the deposit back.
    pub open spec fn target(&self) -> HoldingId {
        HoldingId { owner: self.maker, mint: self.mint_a.key }
    }

    /// The vault of the record.
    pub open spec fn vault(&self) -> HoldingId {
        HoldingId { owner: self.escrow, mint: self.mint_a.key }
    }

    /// The return: `amount` of asset A from the vault back to the maker, signed
    /// by the derived authority of the record `data`.
    pub open spec fn returning(&self, data: Escrow, amount: u64) -> TransferCheckedView {
        TransferCheckedView {
            from: self.vault(),
            to: self.target(),
            authority: self.escrow,
            mint: self.mint_a.key,
            amount,
            decimals: self.mint_a.decimals,
            signer_seeds: Some(escrow_signer_seeds(data.maker, data.seed, data.bump)),
        }
    }

    /// The closing of the vault, its custodial deposit paid to the maker.
    pub open spec fn closing(&self, data: Escrow) -> CloseAccountView {
        CloseAccountView {
            account: self.vault(),
            destination: self.maker,
            authority: self.escrow,
            signer_seeds: Some(escrow_signer_seeds(data.maker, data.seed, data.bump)),
        }
    }

    /// The instruction that empties the vault, which holds `amount`, back into
    /// the maker's account.
    pub fn withdraw(&self, data: &Escrow, amount: u64) -> (ix: TransferChecked)
        ensures
            ix@ == self.returning(*data, amount),
    {
        TransferChecked {
            from: HoldingId { owner: self.escrow, mint: self.mint_a.key },
            to: HoldingId { owner: self.maker, mint: self.mint_a.key },
            authority: self.escrow,
            mint: self.mint_a.key,
            amount,
            decimals: self.mint_a.decimals,
            signer_seeds: Some(escrow_signer_seeds_of(&data.maker, data.seed, data.bump)),
        }
    }

    /// The instruction that closes the emptied vault.
    pub fn close(&self, data: &Escrow) -> (ix: CloseAccount)
        ensures
            ix@ == self.closing(*data),
    {
        CloseAccount {
            account: HoldingId { owner: self.escrow, mint: self.mint_a.key },
            destination: self.maker,
            authority: self.escrow,
            signer_seeds: Some(escrow_signer_seeds_of(&data.maker, data.seed, data.bump)),
        }
    }
}

impl LedgerState {
    /// The holding account `id` as a take or a refund reads it: with its
    /// balance, or empty where it does not exist yet.
    pub open spec fn snapshot(self, id: HoldingId) -> TokenAccount {
        TokenAccount {
            owner: id.owner,
            mint: id.mint,
            amount: if self.holdings.contains_key(id) {
                self.holdings[id].amount
            } else {
                0
            },
        }
    }

    /// The ledger with the record `data` opened at `address`.
    pub open spec fn with_record(self, address: Identity, data: Escrow) -> LedgerState {
        LedgerState {
            records: self.records.insert(address, Record { data, deposit: self.record_deposit }),
            ..self
        }
    }

    /// The ledger after `offer` is made, where the maker's address lies on the
    /// curve or not as `signer_on_curve` says and the search for the record's
    /// home gave `home`: the ledger, with the address of the record; or why the
    /// offer is refused.
    pub open spec fn made_at(self, offer: Make, signer_on_curve: bool, home: Option<Home>) -> Result<
        (LedgerState, Identity),
        EscrowError,
    > {
        if offer.receive == 0 {
            Err(EscrowError::InvalidAmount)
        } else if !signer_on_curve {
            Err(EscrowError::Unauthorized)
        } else if home is None || home->Some_0.on_curve {
            Err(EscrowError::DerivationFailed)
        } else {
            let address = home->Some_0.address;
            let vault = HoldingId { owner: address, mint: offer.mint_a.key };
            if self.records.contains_key(address) || self.holdings.contains_key(vault) {
                Err(EscrowError::AlreadyExists)
            } else if !self.holdings.contains_key(offer.source())
                || self.holdings[offer.source()].amount < offer.deposit {
                Err(EscrowError::InsufficientBalance)
            } else {
                match self.debited(offer.maker, self.record_deposit) {
                    Err(e) => Err(e),
                    Ok(s1) => match s1.with_record(
                        address,
                        offer.record(home->Some_0.bump),
                    ).with_holding(vault, offer.maker) {
                        Err(e) => Err(e),
                        Ok(s2) => match s2.transferred_with(
                            offer.funding(address),
                            offer.maker,
                            Evidence { signer_on_curve, rederived: None },
                        ) {
                            Err(e) => Err(e),
                            Ok(s3) => Ok((s3, address)),
                        },
                    },
                }
            }
        }
    }

    /// Where the search for the home of the record of `offer` ends under the
    /// program.
    pub open spec fn home(self, offer: Make) -> Option<Home> {
        match escrow_home(offer.maker, offer.seed, self.program) {
            Some((address, bump)) => Some(Home { address, bump, on_curve: on_curve(address) }),
            None => None,
        }
    }

    /// The ledger after `offer` is made, with the address of its record; or why
    /// it is refused.
    pub open spec fn made(self, offer: Make) -> Result<(LedgerState, Identity), EscrowError> {
        self.made_at(offer, on_curve(offer.maker), self.home(offer))
    }

    /// What the stored maker, seed and bump of the record at `address` derive
    /// under the program; nothing where no record stands there.
    pub open spec fn rederivation(self, address: Identity) -> Option<Identity> {
        if self.records.contains_key(address) {
            let data = self.records[address].data;
            program_address(escrow_signer_seeds(data.maker, data.seed, data.bump), self.program)
        } else {
            None
        }
    }

    /// The accounts of a take as the ledger holds them when it starts. The
    /// vault is the holding account of the record for the asset the record
    /// names.
    pub open spec fn take_context(self, accounts: TakeAccounts) -> Take {
        let data = self.records[accounts.escrow].data;
        Take {
            taker: accounts.taker,
            maker: accounts.maker,
            mint_a: accounts.mint_a,
            mint_b: accounts.mint_b,
            taker_ata_a: self.snapshot(
                HoldingId { owner: accounts.taker, mint: accounts.mint_a.key },
            ),
            taker_ata_b: self.snapshot(
                HoldingId { owner: accounts.taker, mint: accounts.mint_b.key },
            ),
            maker_ata_b: self.snapshot(
                HoldingId { owner: accounts.maker, mint: accounts.mint_b.key },
            ),
            escrow: EscrowAccount { key: accounts.escrow, data },
            vault: self.snapshot(HoldingId { owner: accounts.escrow, mint: data.mint_a }),
        }
    }

    /// The four effects of a take, in order, on accounts that met every
    /// precondition: the receiving accounts opened where absent, the payment,
    /// the withdrawal, the vault closed, the record closed; each on the evidence
    /// given: the payment on the taker's signature, the two that the derived
    /// authority signs on what its seeds derive.
    pub open spec fn settled_with(self, take: Take, evidence: Evidence) -> Result<
        LedgerState,
        EscrowError,
    > {
        match self.with_holding(take.taker_ata_a.id(), take.taker) {
            Err(e) => Err(e),
            Ok(s1) => match s1.with_holding(take.maker_ata_b.id(), take.taker) {
                Err(e) => Err(e),
                Ok(s2) => match s2.transferred_with(take.payment(), take.taker, evidence) {
                    Err(e) => Err(e),
                    Ok(s3) => match s3.transferred_with(take.withdrawal(), take.taker, evidence) {
                        Err(e) => Err(e),
                        Ok(s4) => match s4.closed_with(take.closing(), take.taker, evidence) {
                            Err(e) => Err(e),
                            Ok(s5) => s5.record_closed(take.escrow.key, take.maker),
                        },
                    },
                },
            },
        }
    }

    /// The ledger after a take on the evidence given, or why the take is
    /// refused: whether the taker's address lies on the curve, and what the
    /// record's stored proof derives.
    pub open spec fn taken_with(self, accounts: TakeAccounts, evidence: Evidence) -> Result<
        LedgerState,
        EscrowError,
    > {
        if !self.records.contains_key(accounts.escrow) {
            Err(EscrowError::NotFound)
        } else {
            let take = self.take_context(accounts);
            if !self.holdings.contains_key(take.vault.id()) {
                Err(EscrowError::NotFound)
            } else if !evidence.signer_on_curve {
                Err(EscrowError::Unauthorized)
            } else {
                match take.verdict(evidence.rederived) {
                    Some(e) => Err(e),
                    None => self.settled_with(take, evidence),
                }
            }
        }
    }

    /// The evidence on an operation that `signer` signed on the record at
    /// `address`.
    pub open spec fn proof_of(self, signer: Identity, address: Identity) -> Evidence {
        Evidence { signer_on_curve: on_curve(signer), rederived: self.rederivation(address) }
    }

    /// The ledger after a take, or why it is refused.
    pub open spec fn taken(self, accounts: TakeAccounts) -> Result<LedgerState, EscrowError> {
        self.taken_with(accounts, self.proof_of(accounts.taker, accounts.escrow))
    }

    /// The ledger after a refund on the evidence given, or why the refund is
    /// refused: whether the maker's address lies on the curve, and what the
    /// record's stored proof derives.
    pub open spec fn refunded_with(self, refund: Refund, evidence: Evidence) -> Result<
        LedgerState,
        EscrowError,
    > {
        if !self.records.contains_key(refund.escrow) {
            Err(EscrowError::NotFound)
        } else {
            let data = self.records[refund.escrow].data;
            if !evidence.signer_on_curve {
                Err(EscrowError::Unauthorized)
            } else if data.maker != refund.maker {
                Err(EscrowError::WrongMaker)
            } else if refund.maker == refund.escrow {
                Err(EscrowError::WrongOwner)
            } else if data.mint_a != refund.mint_a.key {
                Err(EscrowError::WrongMint)
            } else if evidence.rederived != Some(refund.escrow) {
                Err(EscrowError::AddressMismatch)
            } else if !self.holdings.contains_key(refund.vault()) {
                Err(EscrowError::NotFound)
            } else {
                let amount = self.holdings[refund.vault()].amount;
                match self.with_holding(refund.target(), refund.maker) {
                    Err(e) => Err(e),
                    Ok(s1) => match s1.transferred_with(
                        refund.returning(data, amount),
                        refund.maker,
                        evidence,
                    ) {
                        Err(e) => Err(e),
                        Ok(s2) => match s2.closed_with(
                            refund.closing(data),
                            refund.maker,
                            evidence,
                        ) {
                            Err(e) => Err(e),
                            Ok(s3) => s3.record_closed(refund.escrow, refund.maker),
                        },
                    },
                }
            }
        }
    }

    /// The ledger after a refund, or why it is refused.
    pub open spec fn refunded(self, refund: Refund) -> Result<LedgerState, EscrowError> {
        self.refunded_with(refund, self.proof_of(refund.maker, refund.escrow))
    }
}

/// What the steps of an operation owe while they run on a working copy: on
/// success the ledger that `expected` names, on refusal its error.
pub open spec fn steps_done(
    after: LedgerState,
    expected: Result<LedgerState, EscrowError>,
    r: Result<(), EscrowError>,
) -> bool {
    match expected {
        Ok(s) => r is Ok && after == s,
        Err(e) => r == Err::<(), EscrowError>(e),
    }
}

impl Ledger {
    /// The holding account `id` as an operation reads it.
    pub fn snapshot(&self, id: &HoldingId) -> (account: TokenAccount)
        ensures
            account == self@.snapshot(*id),
    {
        let amount = match self.holding(id) {
            Some(held) => held.amount,
            None => 0,
        };
        TokenAccount { owner: id.owner, mint: id.mint, amount }
    }

    /// What the stored maker, seed and bump of the record at `address` derive
    /// under the program of this ledger; nothing where no record stands there.
    pub fn rederivation(&self, address: &Identity) -> (r: Option<Identity>)
        ensures
            r == self@.rederivation(*address),
    {
        match self.record(address) {
            Some(record) => escrow_address(
                &record.data.maker,
                record.data.seed,
                record.data.bump,
                &self.program(),
            ),
            None => None,
        }
    }

    /// Gathers the evidence on an operation that `signer` signed on the record
    /// at `address`.
    ///
    /// For use off the chain, as [`can_sign`] is.
    pub fn proof_of(&self, signer: &Identity, address: &Identity) -> (r: Evidence)
        ensures
            r == self@.proof_of(*signer, *address),
    {
        Evidence { signer_on_curve: can_sign(signer), rederived: self.rederivation(address) }
    }

    /// Searches the home of the record of `offer` under the program of this
    /// ledger.
    pub fn home(&self, offer: &Make) -> (r: Option<Home>)
        ensures
            r == self@.home(*offer),
    {
        match find_escrow_address(&offer.maker, offer.seed, &self.program()) {
            Some((address, bump)) => Some(Home { address, bump, on_curve: false }),
            None => None,
        }
    }

    /// The steps of making an offer, on a working copy.
    fn make_steps(&mut self, offer: &Make, signer_on_curve: bool, home: Option<Home>) -> (r: Result<
        Identity,
        EscrowError,
    >)
        ensures
            match old(self)@.made_at(*offer, signer_on_curve, home) {
                Ok((s, address)) => r == Ok::<Identity, EscrowError>(address) && final(self)@ == s,
                Err(e) => r == Err::<Identity, EscrowError>(e),
            },
    {
        if offer.receive == 0 {
            return Err(EscrowError::InvalidAmount);
        }
        if !signer_on_curve {
            return Err(EscrowError::Unauthorized);
        }
        let (address, bump) = match home {
            Some(found) => {
                if found.on_curve {
                    return Err(EscrowError::DerivationFailed);
                }
                (found.address, found.bump)
            },
            None => {
                return Err(EscrowError::DerivationFailed);
            },
        };
        let vault = HoldingId { owner: address, mint: offer.mint_a.key };
        let source = HoldingId { owner: offer.maker, mint: offer.mint_a.key };
        if self.record(&address).is_some() || self.holding(&vault).is_some() {
            return Err(EscrowError::AlreadyExists);
        }
        match self.holding(&source) {
            None => {
                return Err(EscrowError::InsufficientBalance);
            },
            Some(held) => {
                if held.amount < offer.deposit {
                    return Err(EscrowError::InsufficientBalance);
                }
            },
        }
        let record_deposit = self.record_deposit();
        match self.debit(&offer.maker, record_deposit) {
            Err(e) => {
                return Err(e);
            },
            Ok(()) => {},
        }
        let data = Escrow {
            maker: offer.maker,
            seed: offer.seed,
            mint_a: offer.mint_a.key,
            mint_b: offer.mint_b.key,
            receive: offer.receive,
            bump,
        };
        self.open_record(&address, data);
        match self.open_holding(&vault, &offer.maker) {
            Err(e) => {
                return Err(e);
            },
            Ok(()) => {},
        }
        let evidence = Evidence { signer_on_curve, rederived: None };
        match self.transfer_with(&offer.fund(&address), &offer.maker, evidence) {
            Err(e) => Err(e),
            Ok(()) => Ok(address),
        }
    }

    /// Makes an offer at the home that the search for its record gave: opens
    /// the record and its vault there, and moves the deposit of asset A from
    /// the maker into the vault. Returns the record's address.
    ///
    /// Refused when the amount asked is zero, when the maker's address lies off
    /// the curve and so cannot have signed, when the search gave no home or one
    /// on the curve, when a record or a vault already stands there, when the
    /// maker holds less of asset A than the deposit, or when the maker's wallet
    /// cannot pay the custodial deposits. A refused offer changes nothing.
    pub fn make_at(&mut self, offer: &Make, signer_on_curve: bool, home: Option<Home>) -> (r: Result<
        Identity,
        EscrowError,
    >)
        ensures
            match old(self)@.made_at(*offer, signer_on_curve, home) {
                Ok((s, address)) => r == Ok::<Identity, EscrowError>(address) && final(self)@ == s,
                Err(e) => r == Err::<Identity, EscrowError>(e) && final(self)@ == old(self)@,
            },
            r matches Ok(address) ==> home matches Some(h) && address == h.address
                && make_settlement(old(self)@, *offer, final(self)@, address, h.bump),
    {
        proof {
            if self@.made_at(*offer, signer_on_curve, home) is Ok {
                make_settles(self@, *offer, signer_on_curve, home);
            }
        }
        let mut work = self.duplicate();
        match work.make_steps(offer, signer_on_curve, home) {
            Ok(address) => {
                *self = work;
                Ok(address)
            },
            Err(e) => Err(e),
        }
    }

    /// Makes an offer: derives the home of its record from maker and seed, and
    /// makes the offer there.
    ///
    /// For use off the chain, as [`can_sign`] is.
    pub fn make(&mut self, offer: &Make) -> (r: Result<Identity, EscrowError>)
        ensures
            match old(self)@.made(*offer) {
                Ok((s, address)) => r == Ok::<Identity, EscrowError>(address) && final(self)@ == s,
                Err(e) => r == Err::<Identity, EscrowError>(e) && final(self)@ == old(self)@,
            },
            r matches Ok(address) ==> old(self)@.home(*offer) matches Some(h) && address
                == h.address && make_settlement(old(self)@, *offer, final(self)@, address, h.bump),
    {
        let home = self.home(offer);
        self.make_at(offer, can_sign(&offer.maker), home)
    }

    /// The four effects of a take, on a working copy.
    fn settle(&mut self, take: &Take, evidence: Evidence) -> (r: Result<(), EscrowError>)
        ensures
            steps_done(final(self)@, old(self)@.settled_with(*take, evidence), r),
    {
        match self.open_holding(&take.taker_ata_a.holding_id(), &take.taker) {
            Err(e) => {
                return Err(e);
            },
            Ok(()) => {},
        }
        match self.open_holding(&take.maker_ata_b.holding_id(), &take.taker) {
            Err(e) => {
                return Err(e);
            },
            Ok(()) => {},
        }
        match self.transfer_with(&take.send(), &take.taker, evidence) {
            Err(e) => {
                return Err(e);
            },
            Ok(()) => {},
        }
        match self.transfer_with(&take.withdraw(), &take.taker, evidence) {
            Err(e) => {
                return Err(e);
            },
            Ok(()) => {},
        }
        match self.close_with(&take.close(), &take.taker, evidence) {
            Err(e) => {
                return Err(e);
            },
            Ok(()) => {},
        }
        self.close_record(&take.escrow.key, &take.maker)
    }

    /// The steps of a take, on a working copy.
    fn take_steps(&mut self, accounts: &TakeAccounts, evidence: Evidence) -> (r: Result<
        (),
        EscrowError,
    >)
        ensures
            steps_done(final(self)@, old(self)@.taken_with(*accounts, evidence), r),
    {
        let record = match self.record(&accounts.escrow) {
            Some(record) => record,
            None => {
                return Err(EscrowError::NotFound);
            },
        };
        let vault = HoldingId { owner: accounts.escrow, mint: record.data.mint_a };
        let take = Take {
            taker: accounts.taker,
            maker: accounts.maker,
            mint_a: accounts.mint_a,
            mint_b: accounts.mint_b,
            taker_ata_a: self.snapshot(
                &HoldingId { owner: accounts.taker, mint: accounts.mint_a.key },
            ),
            taker_ata_b: self.snapshot(
                &HoldingId { owner: accounts.taker, mint: accounts.mint_b.key },
            ),
            maker_ata_b: self.snapshot(
                &HoldingId { owner: accounts.maker, mint: accounts.mint_b.key },
            ),
            escrow: EscrowAccount { key: accounts.escrow, data: record.data },
            vault: self.snapshot(&vault),
        };
        if self.holding(&vault).is_none() {
            return Err(EscrowError::NotFound);
        }
        if !evidence.signer_on_curve {
            return Err(EscrowError::Unauthorized);
        }
        match take.validate_with(evidence.rederived) {
            Err(e) => {
                return Err(e);
            },
            Ok(()) => {},
        }
        self.settle(&take, evidence)
    }

    /// Takes an offer on the evidence given: pays the maker `receive` of asset
    /// B, moves the whole vault to the taker, closes the vault and the record,
    /// and pays both custodial deposits to the maker.
    ///
    /// Refused when the record or its vault is not there, when the taker's
    /// address lies off the curve and so cannot have signed, when a
    /// precondition of [`Take::validate_with`] fails, when the taker's wallet
    /// cannot pay for a receiving account that has to be opened, or when a
    /// balance would overflow. A refused take changes nothing.
    pub fn take_with(&mut self, accounts: &TakeAccounts, evidence: Evidence) -> (r: Result<
        (),
        EscrowError,
    >)
        ensures
            step_done(old(self)@, final(self)@, old(self)@.taken_with(*accounts, evidence), r),
            r is Ok ==> take_settlement(old(self)@, *accounts, final(self)@),
    {
        proof {
            if self@.taken_with(*accounts, evidence) is Ok {
                take_settles(self@, *accounts, evidence);
            }
        }
        let mut work = self.duplicate();
        match work.take_steps(accounts, evidence) {
            Ok(()) => {
                *self = work;
                Ok(())
            },
            Err(e) => Err(e),
        }
    }

    /// Takes an offer: gathers the evidence on the taker's signature and on the
    /// stored proof of the record, and takes the offer on it.
    ///
    /// For use off the chain, as [`can_sign`] is.
    pub fn take(&mut self, accounts: &TakeAccounts) -> (r: Result<(), EscrowError>)
        ensures
            step_done(old(self)@, final(self)@, old(self)@.taken(*accounts), r),
            r is Ok ==> take_settlement(old(self)@, *accounts, final(self)@),
    {
        let evidence = self.proof_of(&accounts.taker, &accounts.escrow);
        self.take_with(accounts, evidence)
    }

    /// The steps of a refund, on a working copy.
    fn refund_steps(&mut self, refund: &Refund, evidence: Evidence) -> (r: Result<
        (),
        EscrowError,
    >)
        ensures
            steps_done(final(self)@, old(self)@.refunded_with(*refund, evidence), r),
    {
        let record = match self.record(&refund.escrow) {
            Some(record) => record,
            None => {
                return Err(EscrowError::NotFound);
            },
        };
        let data = record.data;
        if !evidence.signer_on_curve {
            return Err(EscrowError::Unauthorized);
        }
        if !data.maker.same(&refund.maker) {
            return Err(EscrowError::WrongMaker);
        }
        if refund.maker.same(&refund.escrow) {
            return Err(EscrowError::WrongOwner);
        }
        if !data.mint_a.same(&refund.mint_a.key) {
            return Err(EscrowError::WrongMint);
        }
        let verifies = match evidence.rederived {
            Some(address) => address.same(&refund.escrow),
            None => false,
        };
        if !verifies {
            return Err(EscrowError::AddressMismatch);
        }
        let vault = HoldingId { owner: refund.escrow, mint: refund.mint_a.key };
        let amount = match self.holding(&vault) {
            Some(held) => held.amount,
            None => {
                return Err(EscrowError::NotFound);
            },
        };
        let target = HoldingId { owner: refund.maker, mint: refund.mint_a.key };
        match self.open_holding(&target, &refund.maker) {
            Err(e) => {
                return Err(e);
            },
            Ok(()) => {},
        }
        match self.transfer_with(&refund.withdraw(&data, amount), &refund.maker, evidence) {
            Err(e) => {
                return Err(e);
            },
            Ok(()) => {},
        }
        match self.close_with(&refund.close(&data), &refund.maker, evidence) {
            Err(e) => {
                return Err(e);
            },
            Ok(()) => {},
        }
        self.close_record(&refund.escrow, &refund.maker)
    }

    /// Cancels an offer on the evidence given: moves the whole vault back to the
    /// maker, closes the vault and the record, and pays both custodial deposits
    /// to the maker.
    ///
    /// Refused when the record or its vault is not there, when the signer's
    /// address lies off the curve and so cannot have signed, when the signer is
    /// not the record's maker or is the record itself, when the mint is not the
    /// record's, when the stored proof does not derive the address the record
    /// stands at, when the
    /// maker's wallet cannot pay for a receiving account that has to be opened,
    /// or when a balance would overflow. A refused refund changes nothing.
    pub fn refund_with(&mut self, refund: &Refund, evidence: Evidence) -> (r: Result<
        (),
        EscrowError,
    >)
        ensures
            step_done(old(self)@, final(self)@, old(self)@.refunded_with(*refund, evidence), r),
            r is Ok ==> refund_settlement(old(self)@, *refund, final(self)@),
    {
        proof {
            if self@.refunded_with(*refund, evidence) is Ok {
                refund_settles(self@, *refund, evidence);
            }
        }
        let mut work = self.duplicate();
        match work.refund_steps(refund, evidence) {
            Ok(()) => {
                *self = work;
                Ok(())
            },
            Err(e) => Err(e),
        }
    }

    /// Cancels an offer: gathers the evidence on the maker's signature and on
    /// the stored proof of the record, and refunds on it.
    ///
    /// For use off the chain, as [`can_sign`] is.
    pub fn refund(&mut self, refund: &Refund) -> (r: Result<(), EscrowError>)
        ensures
            step_done(old(self)@, final(self)@, old(self)@.refunded(*refund), r),
            r is Ok ==> refund_settlement(old(self)@, *refund, final(self)@),
    {
        let evidence = self.proof_of(&refund.maker, &refund.escrow);
        self.refund_with(refund, evidence)
    }
}

} // verus!
