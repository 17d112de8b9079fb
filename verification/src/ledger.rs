//! The ledger an exchange runs against: wallets, holding accounts and records,
//! with the primitives that move balances and close accounts.
//!
//! Every primitive either takes effect in full or leaves the ledger as it was.
//!
//! The ledger is for use off the chain. The functions that gather the evidence
//! themselves ([`Ledger::evidence`], [`Ledger::transfer_checked`],
//! [`Ledger::close_account`]) ask whether the signer's address lies on the
//! curve, which a program built for the chain cannot do: the call aborts there.
//! Those that take the evidence as an argument do not.

use vstd::prelude::*;
use crate::account::{Escrow, HoldingId};
use crate::authority::{address_of, can_sign, on_curve, program_address};
use crate::error::EscrowError;
use crate::identity::Identity;
use crate::instruction::{
    seeds_view, CloseAccount, CloseAccountView, TransferChecked, TransferCheckedView,
};
use crate::table::Table;

verus! {

/// What the ledger keeps of a holding account: its balance, and the custodial
/// deposit that is paid back when it closes.
#[derive(Clone, Copy, Debug, PartialEq, Eq)]
pub struct Holding {
    pub amount: u64,
    pub deposit: u64,
}

/// What the ledger keeps of a record: the offer, and the custodial deposit that
/// is paid back when it closes.
#[derive(Clone, Copy, Debug, PartialEq, Eq)]
pub struct Record {
    pub data: Escrow,
    pub deposit: u64,
}

/// What the cryptography of the host says of one instruction.
#[derive(Clone, Copy, Debug, PartialEq, Eq)]
pub struct Evidence {
    /// Whether the signer's address lies on the curve, so that a private key
    /// can have signed for it.
    pub signer_on_curve: bool,
    /// What the signer seeds of the instruction derive; nothing where it
    /// carries none or they derive none.
    pub rederived: Option<Identity>,
}

/// Whether `authority` stands behind an instruction of a transaction that
/// `signer` signed. Where the instruction carries no seeds: by being the
/// signer, with an address that a private key can sign for. Where it carries
/// some: by its seeds deriving exactly `authority`.
pub open spec fn stands_behind(
    authority: Identity,
    by_seeds: bool,
    signer: Identity,
    evidence: Evidence,
) -> bool {
    if by_seeds {
        evidence.rederived == Some(authority)
    } else {
        authority == signer && evidence.signer_on_curve
    }
}

/// The ledger as a mathematical value.
#[verifier::ext_equal]
pub struct LedgerState {
    /// The program under which authorities are derived.
    pub program: Identity,
    /// The custodial deposit that opening a holding account costs.
    pub holding_deposit: u64,
    /// The custodial deposit that opening a record costs.
    pub record_deposit: u64,
    /// What each wallet holds of the currency deposits are paid in.
    pub wallets: Map<Identity, u64>,
    pub holdings: Map<HoldingId, Holding>,
    pub records: Map<Identity, Record>,
}

impl LedgerState {
    /// What the wallet of `who` holds; nothing, if it was never paid into.
    pub open spec fn balance(self, who: Identity) -> u64 {
        if self.wallets.contains_key(who) {
            self.wallets[who]
        } else {
            0
        }
    }

    /// The ledger after `amount` is paid into the wallet of `who`.
    pub open spec fn credited(self, who: Identity, amount: u64) -> Result<
        LedgerState,
        EscrowError,
    > {
        if self.balance(who) + amount > u64::MAX {
            Err(EscrowError::Overflow)
        } else {
            Ok(
                LedgerState {
                    wallets: self.wallets.insert(who, (self.balance(who) + amount) as u64),
                    ..self
                },
            )
        }
    }

    /// The ledger after `amount` is paid out of the wallet of `who`.
    pub open spec fn debited(self, who: Identity, amount: u64) -> Result<LedgerState, EscrowError> {
        if self.balance(who) < amount {
            Err(EscrowError::InsufficientFunds)
        } else {
            Ok(
                LedgerState {
                    wallets: self.wallets.insert(who, (self.balance(who) - amount) as u64),
                    ..self
                },
            )
        }
    }

    /// The ledger with the holding account `id` in it: as it is where the
    /// account exists, else with the account opened empty and its deposit paid
    /// by `payer`.
    pub open spec fn with_holding(self, id: HoldingId, payer: Identity) -> Result<
        LedgerState,
        EscrowError,
    > {
        if self.holdings.contains_key(id) {
            Ok(self)
        } else {
            match self.debited(payer, self.holding_deposit) {
                Err(e) => Err(e),
                Ok(s) => Ok(
                    LedgerState {
                        holdings: s.holdings.insert(
                            id,
                            Holding { amount: 0, deposit: self.holding_deposit },
                        ),
                        ..s
                    },
                ),
            }
        }
    }

    /// The ledger after `amount` new units are issued into the holding account
    /// `id`.
    pub open spec fn issued(self, id: HoldingId, amount: u64) -> Result<LedgerState, EscrowError> {
        if !self.holdings.contains_key(id) {
            Err(EscrowError::NotFound)
        } else if self.holdings[id].amount + amount > u64::MAX {
            Err(EscrowError::Overflow)
        } else {
            Ok(
                LedgerState {
                    holdings: self.holdings.insert(
                        id,
                        Holding { amount: (self.holdings[id].amount + amount) as u64, ..self.holdings[id] },
                    ),
                    ..self
                },
            )
        }
    }

    /// What the signer seeds of an instruction derive under the program; nothing
    /// where the instruction carries none.
    pub open spec fn derivation(self, seeds: Option<Seq<Seq<u8>>>) -> Option<Identity> {
        match seeds {
            Some(s) => program_address(s, self.program),
            None => None,
        }
    }

    /// The evidence on an instruction with signer seeds `seeds` in a
    /// transaction that `signer` signed.
    pub open spec fn evidence(self, signer: Identity, seeds: Option<Seq<Seq<u8>>>) -> Evidence {
        Evidence { signer_on_curve: on_curve(signer), rederived: self.derivation(seeds) }
    }

    /// The ledger after a transfer on the evidence given, or why it is refused.
    pub open spec fn transferred_with(
        self,
        ix: TransferCheckedView,
        signer: Identity,
        evidence: Evidence,
    ) -> Result<LedgerState, EscrowError> {
        if !self.holdings.contains_key(ix.from) || !self.holdings.contains_key(ix.to) {
            Err(EscrowError::NotFound)
        } else if ix.from.mint != ix.mint || ix.to.mint != ix.mint {
            Err(EscrowError::WrongMint)
        } else if ix.authority != ix.from.owner || !stands_behind(
            ix.authority,
            ix.signer_seeds is Some,
            signer,
            evidence,
        ) {
            Err(EscrowError::Unauthorized)
        } else if self.holdings[ix.from].amount < ix.amount {
            Err(EscrowError::InsufficientBalance)
        } else if ix.from == ix.to {
            Ok(self)
        } else if self.holdings[ix.to].amount + ix.amount > u64::MAX {
            Err(EscrowError::Overflow)
        } else {
            let from = self.holdings[ix.from];
            let to = self.holdings[ix.to];
            Ok(
                LedgerState {
                    holdings: self.holdings.insert(
                        ix.from,
                        Holding { amount: (from.amount - ix.amount) as u64, ..from },
                    ).insert(ix.to, Holding { amount: (to.amount + ix.amount) as u64, ..to }),
                    ..self
                },
            )
        }
    }

    /// The ledger after a transfer, or why it is refused.
    pub open spec fn transferred(self, ix: TransferCheckedView, signer: Identity) -> Result<
        LedgerState,
        EscrowError,
    > {
        self.transferred_with(ix, signer, self.evidence(signer, ix.signer_seeds))
    }

    /// The ledger after a holding account is closed on the evidence given, or
    /// why that is refused. Only an empty account closes.
    pub open spec fn closed_with(
        self,
        ix: CloseAccountView,
        signer: Identity,
        evidence: Evidence,
    ) -> Result<LedgerState, EscrowError> {
        if !self.holdings.contains_key(ix.account) {
            Err(EscrowError::NotFound)
        } else if ix.authority != ix.account.owner || !stands_behind(
            ix.authority,
            ix.signer_seeds is Some,
            signer,
            evidence,
        ) {
            Err(EscrowError::Unauthorized)
        } else if self.holdings[ix.account].amount != 0 {
            Err(EscrowError::NotEmpty)
        } else {
            match self.credited(ix.destination, self.holdings[ix.account].deposit) {
                Err(e) => Err(e),
                Ok(s) => Ok(LedgerState { holdings: s.holdings.remove(ix.account), ..s }),
            }
        }
    }

    /// The ledger after a holding account is closed, or why that is refused.
    pub open spec fn closed(self, ix: CloseAccountView, signer: Identity) -> Result<
        LedgerState,
        EscrowError,
    > {
        self.closed_with(ix, signer, self.evidence(signer, ix.signer_seeds))
    }

    /// The ledger after the record at `address` is closed and its deposit paid
    /// to `destination`.
    pub open spec fn record_closed(self, address: Identity, destination: Identity) -> Result<
        LedgerState,
        EscrowError,
    > {
        if !self.records.contains_key(address) {
            Err(EscrowError::NotFound)
        } else {
            match self.credited(destination, self.records[address].deposit) {
                Err(e) => Err(e),
                Ok(s) => Ok(LedgerState { records: s.records.remove(address), ..s }),
            }
        }
    }
}

/// What a step owes: on success the ledger that `expected` names, on refusal
/// its error and the ledger unchanged.
pub open spec fn step_done(
    before: LedgerState,
    after: LedgerState,
    expected: Result<LedgerState, EscrowError>,
    r: Result<(), EscrowError>,
) -> bool {
    match expected {
        Ok(s) => r is Ok && after == s,
        Err(e) => r == Err::<(), EscrowError>(e) && after == before,
    }
}

/// Whether `authority` stands behind an instruction of a transaction that
/// `signer` signed, on the evidence given.
pub fn signed(authority: &Identity, by_seeds: bool, signer: &Identity, evidence: Evidence) -> (r:
    bool)
    ensures
        r == stands_behind(*authority, by_seeds, *signer, evidence),
{
    if by_seeds {
        match evidence.rederived {
            Some(address) => address.same(authority),
            None => false,
        }
    } else {
        authority.same(signer) && evidence.signer_on_curve
    }
}

/// The ledger: wallets, holding accounts and records.
pub struct Ledger {
    program: Identity,
    holding_deposit: u64,
    record_deposit: u64,
    wallets: Table<Identity, u64>,
    holdings: Table<HoldingId, Holding>,
    records: Table<Identity, Record>,
}

impl View for Ledger {
    type V = LedgerState;

    closed spec fn view(&self) -> LedgerState {
        LedgerState {
            program: self.program,
            holding_deposit: self.holding_deposit,
            record_deposit: self.record_deposit,
            wallets: self.wallets@,
            holdings: self.holdings@,
            records: self.records@,
        }
    }
}

impl Ledger {
    /// An empty ledger for the escrow program `program`, with the custodial
    /// deposits that opening a holding account and a record cost.
    pub fn new(program: Identity, holding_deposit: u64, record_deposit: u64) -> (ledger: Ledger)
        ensures
            ledger@ == (LedgerState {
                program,
                holding_deposit,
                record_deposit,
                wallets: Map::empty(),
                holdings: Map::empty(),
                records: Map::empty(),
            }),
    {
        Ledger {
            program,
            holding_deposit,
            record_deposit,
            wallets: Table::new(),
            holdings: Table::new(),
            records: Table::new(),
        }
    }

    /// A second ledger in the same state.
    pub fn duplicate(&self) -> (ledger: Ledger)
        ensures
            ledger@ == self@,
    {
        Ledger {
            program: self.program,
            holding_deposit: self.holding_deposit,
            record_deposit: self.record_deposit,
            wallets: self.wallets.duplicate(),
            holdings: self.holdings.duplicate(),
            records: self.records.duplicate(),
        }
    }

    /// The program under which authorities are derived.
    pub fn program(&self) -> (program: Identity)
        ensures
            program == self@.program,
    {
        self.program
    }

    /// The custodial deposit that opening a holding account costs.
    pub fn holding_deposit(&self) -> (deposit: u64)
        ensures
            deposit == self@.holding_deposit,
    {
        self.holding_deposit
    }

    /// The custodial deposit that opening a record costs.
    pub fn record_deposit(&self) -> (deposit: u64)
        ensures
            deposit == self@.record_deposit,
    {
        self.record_deposit
    }

    /// What the wallet of `who` holds.
    pub fn balance(&self, who: &Identity) -> (amount: u64)
        ensures
            amount == self@.balance(*who),
    {
        match self.wallets.get(who) {
            Some(amount) => amount,
            None => 0,
        }
    }

    /// The holding account `id`, if it exists.
    pub fn holding(&self, id: &HoldingId) -> (r: Option<Holding>)
        ensures
            r == (if self@.holdings.contains_key(*id) {
                Some(self@.holdings[*id])
            } else {
                None
            }),
    {
        self.holdings.get(id)
    }

    /// The record at `address`, if it exists.
    pub fn record(&self, address: &Identity) -> (r: Option<Record>)
        ensures
            r == (if self@.records.contains_key(*address) {
                Some(self@.records[*address])
            } else {
                None
            }),
    {
        self.records.get(address)
    }

    /// Pays `amount` into the wallet of `who`.
    ///
    /// Refused when the wallet would overflow.
    pub fn credit(&mut self, who: &Identity, amount: u64) -> (r: Result<(), EscrowError>)
        ensures
            step_done(old(self)@, final(self)@, old(self)@.credited(*who, amount), r),
    {
        let held = self.balance(who);
        if amount > u64::MAX - held {
            return Err(EscrowError::Overflow);
        }
        self.wallets.put(*who, held + amount);
        Ok(())
    }

    /// Pays `amount` out of the wallet of `who`.
    pub(crate) fn debit(&mut self, who: &Identity, amount: u64) -> (r: Result<(), EscrowError>)
        ensures
            step_done(old(self)@, final(self)@, old(self)@.debited(*who, amount), r),
    {
        let held = self.balance(who);
        if held < amount {
            return Err(EscrowError::InsufficientFunds);
        }
        self.wallets.put(*who, held - amount);
        Ok(())
    }

    /// Makes sure the holding account `id` exists: opens it empty where it is
    /// absent, the custodial deposit paid by `payer`, the signer of the
    /// transaction.
    ///
    /// Refused when the account is absent and the payer's wallet holds less
    /// than the deposit.
    pub fn open_holding(&mut self, id: &HoldingId, payer: &Identity) -> (r: Result<
        (),
        EscrowError,
    >)
        ensures
            step_done(old(self)@, final(self)@, old(self)@.with_holding(*id, *payer), r),
    {
        if self.holdings.contains(id) {
            return Ok(());
        }
        let deposit = self.holding_deposit;
        match self.debit(payer, deposit) {
            Err(e) => Err(e),
            Ok(()) => {
                self.holdings.put(*id, Holding { amount: 0, deposit });
                Ok(())
            },
        }
    }

    /// Issues `amount` new units of an asset into the holding account `id`, as
    /// the asset's issuer does.
    ///
    /// Refused when the account is absent or its balance would overflow.
    pub fn issue(&mut self, id: &HoldingId, amount: u64) -> (r: Result<(), EscrowError>)
        ensures
            step_done(old(self)@, final(self)@, old(self)@.issued(*id, amount), r),
    {
        match self.holdings.get(id) {
            None => Err(EscrowError::NotFound),
            Some(held) => {
                if amount > u64::MAX - held.amount {
                    return Err(EscrowError::Overflow);
                }
                self.holdings.put(*id, Holding { amount: held.amount + amount, deposit: held.deposit });
                Ok(())
            },
        }
    }

    /// What the signer seeds of an instruction derive under the program of this
    /// ledger; nothing where the instruction carries none.
    pub fn derivation(&self, seeds: &Option<Vec<Vec<u8>>>) -> (r: Option<Identity>)
        ensures
            r == self@.derivation(seeds_view(*seeds)),
    {
        match seeds {
            Some(s) => address_of(s, &self.program),
            None => None,
        }
    }

    /// Gathers the evidence on an instruction with signer seeds `seeds` in a
    /// transaction that `signer` signed.
    ///
    /// For use off the chain, as [`can_sign`] is.
    pub fn evidence(&self, signer: &Identity, seeds: &Option<Vec<Vec<u8>>>) -> (r: Evidence)
        ensures
            r == self@.evidence(*signer, seeds_view(*seeds)),
    {
        Evidence { signer_on_curve: can_sign(signer), rederived: self.derivation(seeds) }
    }

    /// Moves `ix.amount` from one holding account to another, on the evidence
    /// given.
    ///
    /// Refused when either account is absent, when one of them holds another
    /// asset than `ix.mint`, when `ix.authority` is not the owner of the paying
    /// account or does not stand behind the instruction, when the paying
    /// account holds too little, or when the receiving one would overflow.
    pub fn transfer_with(
        &mut self,
        ix: &TransferChecked,
        signer: &Identity,
        evidence: Evidence,
    ) -> (r: Result<(), EscrowError>)
        ensures
            step_done(
                old(self)@,
                final(self)@,
                old(self)@.transferred_with(ix@, *signer, evidence),
                r,
            ),
    {
        let from = match self.holdings.get(&ix.from) {
            Some(h) => h,
            None => {
                return Err(EscrowError::NotFound);
            },
        };
        let to = match self.holdings.get(&ix.to) {
            Some(h) => h,
            None => {
                return Err(EscrowError::NotFound);
            },
        };
        if !ix.from.mint.same(&ix.mint) || !ix.to.mint.same(&ix.mint) {
            return Err(EscrowError::WrongMint);
        }
        if !ix.authority.same(&ix.from.owner) || !signed(
            &ix.authority,
            ix.signer_seeds.is_some(),
            signer,
            evidence,
        ) {
            return Err(EscrowError::Unauthorized);
        }
        if from.amount < ix.amount {
            return Err(EscrowError::InsufficientBalance);
        }
        if ix.from.owner.same(&ix.to.owner) && ix.from.mint.same(&ix.to.mint) {
            return Ok(());
        }
        if ix.amount > u64::MAX - to.amount {
            return Err(EscrowError::Overflow);
        }
        self.holdings.put(ix.from, Holding { amount: from.amount - ix.amount, deposit: from.deposit });
        self.holdings.put(ix.to, Holding { amount: to.amount + ix.amount, deposit: to.deposit });
        Ok(())
    }

    /// Moves `ix.amount` from one holding account to another, on the evidence
    /// that the signer and the signer seeds of `ix` give under the program of
    /// this ledger.
    ///
    /// For use off the chain, as [`can_sign`] is.
    pub fn transfer_checked(&mut self, ix: &TransferChecked, signer: &Identity) -> (r: Result<
        (),
        EscrowError,
    >)
        ensures
            step_done(old(self)@, final(self)@, old(self)@.transferred(ix@, *signer), r),
    {
        let evidence = self.evidence(signer, &ix.signer_seeds);
        self.transfer_with(ix, signer, evidence)
    }

    /// Closes a holding account and pays its custodial deposit to
    /// `ix.destination`, on the evidence given.
    ///
    /// Refused when the account is absent, when `ix.authority` is not its owner
    /// or does not stand behind the instruction, when the account still holds a
    /// balance, or when the destination wallet would overflow. No balance is
    /// ever destroyed by a closing.
    pub fn close_with(
        &mut self,
        ix: &CloseAccount,
        signer: &Identity,
        evidence: Evidence,
    ) -> (r: Result<(), EscrowError>)
        ensures
            step_done(old(self)@, final(self)@, old(self)@.closed_with(ix@, *signer, evidence), r),
    {
        let held = match self.holdings.get(&ix.account) {
            Some(h) => h,
            None => {
                return Err(EscrowError::NotFound);
            },
        };
        if !ix.authority.same(&ix.account.owner) || !signed(
            &ix.authority,
            ix.signer_seeds.is_some(),
            signer,
            evidence,
        ) {
            return Err(EscrowError::Unauthorized);
        }
        if held.amount != 0 {
            return Err(EscrowError::NotEmpty);
        }
        match self.credit(&ix.destination, held.deposit) {
            Err(e) => Err(e),
            Ok(()) => {
                self.holdings.remove(&ix.account);
                Ok(())
            },
        }
    }

    /// Closes a holding account and pays its custodial deposit to
    /// `ix.destination`, on the evidence that the signer and the signer seeds of
    /// `ix` give under the program of this ledger.
    ///
    /// For use off the chain, as [`can_sign`] is.
    pub fn close_account(&mut self, ix: &CloseAccount, signer: &Identity) -> (r: Result<
        (),
        EscrowError,
    >)
        ensures
            step_done(old(self)@, final(self)@, old(self)@.closed(ix@, *signer), r),
    {
        let evidence = self.evidence(signer, &ix.signer_seeds);
        self.close_with(ix, signer, evidence)
    }

    /// Opens the record `data` at `address`, its deposit already paid.
    pub(crate) fn open_record(&mut self, address: &Identity, data: Escrow)
        ensures
            final(self)@ == (LedgerState {
                records: old(self)@.records.insert(
                    *address,
                    Record { data, deposit: old(self)@.record_deposit },
                ),
                ..old(self)@
            }),
    {
        let deposit = self.record_deposit;
        self.records.put(*address, Record { data, deposit });
    }

    /// Closes the record at `address` and pays its deposit to `destination`.
    pub(crate) fn close_record(&mut self, address: &Identity, destination: &Identity) -> (r: Result<
        (),
        EscrowError,
    >)
        ensures
            step_done(
                old(self)@,
                final(self)@,
                old(self)@.record_closed(*address, *destination),
                r,
            ),
    {
        let record = match self.records.get(address) {
            Some(record) => record,
            None => {
                return Err(EscrowError::NotFound);
            },
        };
        match self.credit(destination, record.deposit) {
            Err(e) => Err(e),
            Ok(()) => {
                self.records.remove(address);
                Ok(())
            },
        }
    }
}

} // verus!
