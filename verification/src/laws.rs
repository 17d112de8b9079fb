//! What holds of every exchange, proved of the operations as specified.

use vstd::prelude::*;
use crate::account::HoldingId;
use crate::authority::{
    escrow_signer_seeds, lemma_escrow_home_rederives, on_curve, program_address,
};
use crate::error::EscrowError;
use crate::exchange::{Home, Make, Refund, TakeAccounts};
use crate::identity::Identity;
use crate::instruction::{CloseAccountView, TransferCheckedView};
use crate::ledger::{Evidence, LedgerState, Record};
use crate::take::Take;

verus! {

/// `amount` where `applies`, nothing where not.
pub open spec fn when(applies: bool, amount: int) -> int {
    if applies {
        amount
    } else {
        0
    }
}

/// What a wallet pays for a holding account that has to be opened: the
/// custodial deposit where it is absent, nothing where it exists.
pub open spec fn opening_cost(s: LedgerState, id: HoldingId) -> int {
    if s.holdings.contains_key(id) {
        0
    } else {
        s.holding_deposit as int
    }
}

/// The custodial deposit that the holding account `id` carries after an
/// operation that did not close it: its own where it existed, that of a newly
/// opened account where it did not.
pub open spec fn deposit_kept(s: LedgerState, id: HoldingId) -> u64 {
    if s.holdings.contains_key(id) {
        s.holdings[id].deposit
    } else {
        s.holding_deposit
    }
}

/// The two ledgers run the same program at the same custodial deposits.
pub open spec fn terms_kept(s: LedgerState, t: LedgerState) -> bool {
    &&& t.program == s.program
    &&& t.holding_deposit == s.holding_deposit
    &&& t.record_deposit == s.record_deposit
}

/// Two ledgers agree on every holding account but the two listed.
pub open spec fn holdings_kept(s: LedgerState, t: LedgerState, a: HoldingId, b: HoldingId) -> bool {
    forall|id: HoldingId|
        id != a && id != b ==> (#[trigger] t.holdings.contains_key(id) == s.holdings.contains_key(
            id,
        )) && (s.holdings.contains_key(id) ==> t.holdings[id] == s.holdings[id])
}

/// Two ledgers agree on every wallet but that of `a`.
pub open spec fn wallets_kept(s: LedgerState, t: LedgerState, a: Identity) -> bool {
    forall|w: Identity| w != a ==> #[trigger] t.balance(w) == s.balance(w)
}

/// The steps of a take that succeeds: the ledgers that the two openings, the
/// payment, the withdrawal and the closing of the vault leave, in that order.
pub struct TakeSteps {
    pub opened_a: LedgerState,
    pub opened_b: LedgerState,
    pub paid: LedgerState,
    pub withdrawn: LedgerState,
    pub vault_closed: LedgerState,
}

/// The steps of a refund that succeeds: the ledgers that the opening, the
/// return and the closing of the vault leave, in that order.
pub struct RefundSteps {
    pub opened: LedgerState,
    pub returned: LedgerState,
    pub vault_closed: LedgerState,
}

/// A take is all or nothing. Where it succeeds, the accounts have met every
/// precondition and every one of its steps has taken effect, each on the ledger
/// the one before left: the two receiving accounts opened, the payment, the
/// withdrawal, the vault closed, the record closed. Where one of them is
/// refused, the take is refused; and a refused take returns no ledger, so that
/// the one it found is the one that stays.
pub proof fn take_is_all_or_nothing(
    s: LedgerState,
    accounts: TakeAccounts,
    evidence: Evidence,
) -> (steps: TakeSteps)
    requires
        s.taken_with(accounts, evidence) is Ok,
    ensures
        ({
            let take = s.take_context(accounts);
            &&& s.records.contains_key(accounts.escrow)
            &&& s.holdings.contains_key(take.vault.id())
            &&& evidence.signer_on_curve
            &&& take.verdict(evidence.rederived) is None
            &&& s.with_holding(take.taker_ata_a.id(), take.taker) == Ok::<LedgerState, EscrowError>(
                steps.opened_a,
            )
            &&& steps.opened_a.with_holding(take.maker_ata_b.id(), take.taker) == Ok::<
                LedgerState,
                EscrowError,
            >(steps.opened_b)
            &&& steps.opened_b.transferred_with(take.payment(), take.taker, evidence) == Ok::<
                LedgerState,
                EscrowError,
            >(steps.paid)
            &&& steps.paid.transferred_with(take.withdrawal(), take.taker, evidence) == Ok::<
                LedgerState,
                EscrowError,
            >(steps.withdrawn)
            &&& steps.withdrawn.closed_with(take.closing(), take.taker, evidence) == Ok::<
                LedgerState,
                EscrowError,
            >(steps.vault_closed)
            &&& steps.vault_closed.record_closed(take.escrow.key, take.maker) == s.taken_with(
                accounts,
                evidence,
            )
        }),
{
    let take = s.take_context(accounts);
    let opened_a = s.with_holding(take.taker_ata_a.id(), take.taker)->Ok_0;
    let opened_b = opened_a.with_holding(take.maker_ata_b.id(), take.taker)->Ok_0;
    let paid = opened_b.transferred_with(take.payment(), take.taker, evidence)->Ok_0;
    let withdrawn = paid.transferred_with(take.withdrawal(), take.taker, evidence)->Ok_0;
    let vault_closed = withdrawn.closed_with(take.closing(), take.taker, evidence)->Ok_0;
    TakeSteps { opened_a, opened_b, paid, withdrawn, vault_closed }
}

/// A refund is all or nothing, as a take is.
pub proof fn refund_is_all_or_nothing(s: LedgerState, refund: Refund, evidence: Evidence) -> (steps:
    RefundSteps)
    requires
        s.refunded_with(refund, evidence) is Ok,
    ensures
        ({
            let data = s.records[refund.escrow].data;
            let amount = s.holdings[refund.vault()].amount;
            &&& s.records.contains_key(refund.escrow)
            &&& s.holdings.contains_key(refund.vault())
            &&& evidence.signer_on_curve
            &&& evidence.rederived == Some(refund.escrow)
            &&& data.maker == refund.maker
            &&& data.mint_a == refund.mint_a.key
            &&& refund.maker != refund.escrow
            &&& s.with_holding(refund.target(), refund.maker) == Ok::<LedgerState, EscrowError>(
                steps.opened,
            )
            &&& steps.opened.transferred_with(
                refund.returning(data, amount),
                refund.maker,
                evidence,
            ) == Ok::<LedgerState, EscrowError>(steps.returned)
            &&& steps.returned.closed_with(refund.closing(data), refund.maker, evidence) == Ok::<
                LedgerState,
                EscrowError,
            >(steps.vault_closed)
            &&& steps.vault_closed.record_closed(refund.escrow, refund.maker) == s.refunded_with(
                refund,
                evidence,
            )
        }),
{
    let data = s.records[refund.escrow].data;
    let amount = s.holdings[refund.vault()].amount;
    let opened = s.with_holding(refund.target(), refund.maker)->Ok_0;
    let returned = opened.transferred_with(
        refund.returning(data, amount),
        refund.maker,
        evidence,
    )->Ok_0;
    let vault_closed = returned.closed_with(refund.closing(data), refund.maker, evidence)->Ok_0;
    RefundSteps { opened, returned, vault_closed }
}

/// What the taker's wallet pays for the receiving accounts that a take has to
/// open: each absent account once.
pub open spec fn take_cost(s: LedgerState, accounts: TakeAccounts) -> int {
    let take = s.take_context(accounts);
    opening_cost(s, take.taker_ata_a.id()) + when(
        take.maker_ata_b.id() != take.taker_ata_a.id(),
        opening_cost(s, take.maker_ata_b.id()),
    )
}

/// What a take leaves behind, whoever the parties and whatever the assets. The
/// record and its vault are gone. Every other holding account holds what it
/// held, plus the whole vault where it is the taker's account of asset A, plus
/// `receive` where it is the maker's account of asset B, less `receive` where
/// it is the taker's account of asset B. The maker's wallet has grown by both
/// custodial deposits, the taker's has paid for the accounts opened. Nothing
/// else has changed.
pub open spec fn take_settlement(s: LedgerState, accounts: TakeAccounts, t: LedgerState) -> bool {
    let take = s.take_context(accounts);
    let taker_a = take.taker_ata_a.id();
    let taker_b = take.taker_ata_b.id();
    let maker_b = take.maker_ata_b.id();
    let vault = take.vault.id();
    let record = s.records[accounts.escrow];
    let held = s.holdings[vault].amount as int;
    let paid = record.data.receive as int;
    &&& t.records == s.records.remove(accounts.escrow)
    &&& !t.holdings.contains_key(vault)
    &&& vault != taker_a && vault != taker_b && vault != maker_b
    &&& forall|id: HoldingId|
        id != vault ==> (#[trigger] t.holdings.contains_key(id) <==> s.holdings.contains_key(id)
            || id == taker_a || id == maker_b)
    &&& forall|id: HoldingId|
        id != vault && #[trigger] t.holdings.contains_key(id) ==> t.holdings[id].amount
            == s.snapshot(id).amount + when(id == taker_a, held) + when(id == maker_b, paid)
            - when(id == taker_b, paid) && t.holdings[id].deposit == deposit_kept(s, id)
    &&& forall|w: Identity| #[trigger]
        t.balance(w) == s.balance(w) + when(
            w == accounts.maker,
            s.holdings[vault].deposit + record.deposit,
        ) - when(w == accounts.taker, take_cost(s, accounts))
    &&& terms_kept(s, t)
}

/// A take that succeeds has all of its effects and no other: the taker holds
/// the whole vault of asset A, the maker holds `receive` more of asset B and
/// both custodial deposits, the vault and the record are gone, and nothing else
/// has changed. It holds of every take, also where taker and maker are one
/// party, or the two assets one asset: the amounts then add up in the one
/// account.
pub proof fn take_settles(s: LedgerState, accounts: TakeAccounts, evidence: Evidence)
    requires
        s.taken_with(accounts, evidence) is Ok,
    ensures
        take_settlement(s, accounts, s.taken_with(accounts, evidence)->Ok_0),
{
    let steps = take_is_all_or_nothing(s, accounts, evidence);
    let take = s.take_context(accounts);
    let taker_a = take.taker_ata_a.id();
    let taker_b = take.taker_ata_b.id();
    let maker_b = take.maker_ata_b.id();
    let vault = take.vault.id();
    let t = s.taken_with(accounts, evidence)->Ok_0;
    let held = s.holdings[vault].amount as int;
    let paid = s.records[accounts.escrow].data.receive as int;
    assert(vault != taker_a && vault != taker_b && vault != maker_b);
    assert(steps.opened_b.holdings[vault] == s.holdings[vault]);
    assert(steps.paid.holdings[vault] == s.holdings[vault]);
    assert(steps.withdrawn.holdings[vault].amount == 0);
    assert(t.holdings == steps.vault_closed.holdings);
    assert(t.records =~= s.records.remove(accounts.escrow));
    assert forall|id: HoldingId| id != vault implies (#[trigger] t.holdings.contains_key(id)
        <==> s.holdings.contains_key(id) || id == taker_a || id == maker_b) by {
        assert(steps.opened_b.holdings.contains_key(id) <==> s.holdings.contains_key(id) || id
            == taker_a || id == maker_b);
        assert(steps.withdrawn.holdings.contains_key(id) <==> steps.opened_b.holdings.contains_key(
            id,
        ));
    }
    assert forall|id: HoldingId| id != vault && #[trigger] t.holdings.contains_key(id) implies
        t.holdings[id].amount == s.snapshot(id).amount + when(id == taker_a, held) + when(
        id == maker_b,
        paid,
    ) - when(id == taker_b, paid) && t.holdings[id].deposit == deposit_kept(s, id) by {
        assert(steps.opened_b.holdings.contains_key(id));
        assert(steps.opened_b.holdings[id].amount == s.snapshot(id).amount);
        assert(steps.opened_b.holdings[id].deposit == deposit_kept(s, id));
        assert(steps.paid.holdings[id].amount == steps.opened_b.holdings[id].amount + when(
            id == maker_b,
            paid,
        ) - when(id == taker_b, paid));
        assert(steps.paid.holdings[id].deposit == steps.opened_b.holdings[id].deposit);
        assert(steps.withdrawn.holdings[id].amount == steps.paid.holdings[id].amount + when(
            id == taker_a,
            held,
        ));
        assert(steps.withdrawn.holdings[id].deposit == steps.paid.holdings[id].deposit);
        assert(t.holdings[id] == steps.withdrawn.holdings[id]);
    }
    assert forall|w: Identity| #[trigger]
        t.balance(w) == s.balance(w) + when(
            w == accounts.maker,
            s.holdings[vault].deposit + s.records[accounts.escrow].deposit,
        ) - when(w == accounts.taker, take_cost(s, accounts)) by {
        assert(steps.opened_a.balance(w) == s.balance(w) - when(
            w == accounts.taker,
            opening_cost(s, taker_a),
        ));
        assert(steps.opened_b.balance(w) == steps.opened_a.balance(w) - when(
            w == accounts.taker,
            when(maker_b != taker_a, opening_cost(s, maker_b)),
        ));
        assert(steps.withdrawn.balance(w) == steps.opened_b.balance(w));
        assert(steps.vault_closed.balance(w) == steps.withdrawn.balance(w) + when(
            w == accounts.maker,
            s.holdings[vault].deposit as int,
        ));
        assert(t.balance(w) == steps.vault_closed.balance(w) + when(
            w == accounts.maker,
            s.records[accounts.escrow].deposit as int,
        ));
    }
}

/// The payment of a take whose accounts have met every precondition is the
/// taker's own business: it names the taker as authority, carries no signer
/// seeds, pays from the taker's account of asset B, and leaves the vault as it
/// is, whether the ledger carries it out or refuses it.
pub proof fn payment_spares_vault(
    s: LedgerState,
    take: Take,
    rederived: Option<Identity>,
    evidence: Evidence,
)
    requires
        take.verdict(rederived) is None,
    ensures
        take.payment().authority == take.taker,
        take.payment().signer_seeds is None,
        take.payment().from == take.taker_ata_b.id(),
        take.payment().from != take.vault.id() && take.payment().to != take.vault.id(),
        s.transferred_with(take.payment(), take.taker, evidence) matches Ok(t) ==> (
        t.holdings.contains_key(take.vault.id()) == s.holdings.contains_key(take.vault.id()))
            && t.holdings[take.vault.id()] == s.holdings[take.vault.id()],
{
}

/// What a refund leaves behind. The record and its vault are gone. The maker's
/// account of asset A holds what it held plus the whole vault; every other
/// holding account is as it was. The maker's wallet has grown by both
/// custodial deposits and paid for the account if it had to be opened. Nothing
/// else has changed.
pub open spec fn refund_settlement(s: LedgerState, refund: Refund, t: LedgerState) -> bool {
    let target = refund.target();
    let vault = refund.vault();
    let record = s.records[refund.escrow];
    &&& t.records == s.records.remove(refund.escrow)
    &&& !t.holdings.contains_key(vault)
    &&& vault != target
    &&& t.holdings.contains_key(target)
    &&& t.holdings[target].amount == s.snapshot(target).amount + s.holdings[vault].amount
    &&& t.holdings[target].deposit == deposit_kept(s, target)
    &&& t.balance(refund.maker) == s.balance(refund.maker) - opening_cost(s, target)
        + s.holdings[vault].deposit + record.deposit
    &&& holdings_kept(s, t, target, vault)
    &&& wallets_kept(s, t, refund.maker)
    &&& terms_kept(s, t)
}

/// A refund that succeeds has all of its effects and no other: the maker holds
/// the whole vault of asset A again and both custodial deposits, the vault and
/// the record are gone, and nothing else has changed.
pub proof fn refund_settles(s: LedgerState, refund: Refund, evidence: Evidence)
    requires
        s.refunded_with(refund, evidence) is Ok,
    ensures
        refund_settlement(s, refund, s.refunded_with(refund, evidence)->Ok_0),
{
    let steps = refund_is_all_or_nothing(s, refund, evidence);
    let target = refund.target();
    let vault = refund.vault();
    let t = s.refunded_with(refund, evidence)->Ok_0;
    assert(target != vault);
    assert(t.records =~= s.records.remove(refund.escrow));
    assert(steps.returned.holdings[target].amount == s.snapshot(target).amount
        + s.holdings[vault].amount);
    assert(steps.opened.balance(refund.maker) == s.balance(refund.maker) - opening_cost(
        s,
        target,
    ));
    assert(steps.vault_closed.balance(refund.maker) == steps.opened.balance(refund.maker)
        + s.holdings[vault].deposit);
    assert(t.balance(refund.maker) == steps.vault_closed.balance(refund.maker)
        + s.records[refund.escrow].deposit);
}

/// What making an offer at `address`, with `bump`, leaves behind.
pub open spec fn make_settlement(
    s: LedgerState,
    offer: Make,
    t: LedgerState,
    address: Identity,
    bump: u8,
) -> bool {
    let vault = HoldingId { owner: address, mint: offer.mint_a.key };
    let source = offer.source();
    &&& !s.records.contains_key(address)
    &&& t.records == s.records.insert(
        address,
        Record { data: offer.record(bump), deposit: s.record_deposit },
    )
    &&& vault != source
    &&& t.holdings.contains_key(vault)
    &&& t.holdings[vault].amount == offer.deposit
    &&& t.holdings[vault].deposit == s.holding_deposit
    &&& t.holdings.contains_key(source)
    &&& t.holdings[source].amount == s.holdings[source].amount - offer.deposit
    &&& t.holdings[source].deposit == s.holdings[source].deposit
    &&& t.balance(offer.maker) == s.balance(offer.maker) - s.record_deposit - s.holding_deposit
    &&& holdings_kept(s, t, source, vault)
    &&& wallets_kept(s, t, offer.maker)
    &&& terms_kept(s, t)
}

/// An offer that is made stands in full: the maker has signed; the record is
/// new, stands at the home that was derived, off the curve, and holds exactly
/// the terms offered; the vault holds exactly the deposit; the maker has paid
/// the deposit and both custodial deposits; nothing else has changed.
pub proof fn make_settles(s: LedgerState, offer: Make, signer_on_curve: bool, home: Option<Home>)
    requires
        s.made_at(offer, signer_on_curve, home) is Ok,
    ensures
        signer_on_curve,
        home matches Some(h) && !h.on_curve && s.made_at(offer, signer_on_curve, home)->Ok_0.1
            == h.address && make_settlement(
            s,
            offer,
            s.made_at(offer, signer_on_curve, home)->Ok_0.0,
            h.address,
            h.bump,
        ),
{
    let address = home->Some_0.address;
    let bump = home->Some_0.bump;
    let vault = HoldingId { owner: address, mint: offer.mint_a.key };
    let source = offer.source();
    assert(source != vault);
    let evidence = Evidence { signer_on_curve, rederived: None };
    let s1 = s.debited(offer.maker, s.record_deposit)->Ok_0;
    let s1r = s1.with_record(address, offer.record(bump));
    let s2 = s1r.with_holding(vault, offer.maker)->Ok_0;
    let t = s2.transferred_with(offer.funding(address), offer.maker, evidence)->Ok_0;
    assert(s.made_at(offer, signer_on_curve, home) == Ok::<(LedgerState, Identity), EscrowError>(
        (t, address),
    ));
    assert(s2.balance(offer.maker) == s1.balance(offer.maker) - s.holding_deposit);
    assert(t.holdings[vault].amount == offer.deposit);
    assert(t.records =~= s.records.insert(
        address,
        Record { data: offer.record(bump), deposit: s.record_deposit },
    ));
}

/// A record that was made can be taken and refunded as far as its proof goes:
/// the bump stored with it re-derives the address it stands at.
pub proof fn made_record_verifies(s: LedgerState, offer: Make)
    requires
        s.made(offer) is Ok,
    ensures
        s.made(offer)->Ok_0.0.rederivation(s.made(offer)->Ok_0.1) == Some(s.made(offer)->Ok_0.1),
{
    make_settles(s, offer, on_curve(offer.maker), s.home(offer));
    lemma_escrow_home_rederives(offer.maker, offer.seed, s.program);
}

/// The address of a record depends on nothing but the program, the maker and
/// the seed: two offers of one maker under one seed name the same record, and
/// the second is refused while the first lives.
pub proof fn make_once_per_seed(s: LedgerState, first: Make, second: Make)
    requires
        s.made(first) is Ok,
        second.maker == first.maker,
        second.seed == first.seed,
    ensures
        s.made(first)->Ok_0.0.made(second) is Err,
        second.receive > 0 ==> s.made(first)->Ok_0.0.made(second) == Err::<
            (LedgerState, Identity),
            EscrowError,
        >(EscrowError::AlreadyExists),
{
    make_settles(s, first, on_curve(first.maker), s.home(first));
}

/// No balance leaves a holding account unless its owner stands behind the
/// transfer: as the signer of the transaction, with an address on the curve, or
/// through seeds that derive exactly the owner's address. Seeds that derive
/// another address, or none, are refused.
pub proof fn transfer_needs_authority(
    s: LedgerState,
    ix: TransferCheckedView,
    signer: Identity,
    evidence: Evidence,
)
    requires
        s.transferred_with(ix, signer, evidence) is Ok,
    ensures
        ix.authority == ix.from.owner,
        ix.signer_seeds is None ==> signer == ix.from.owner && evidence.signer_on_curve,
        ix.signer_seeds is Some ==> evidence.rederived == Some(ix.from.owner),
{
}

/// No balance leaves a holding account on the strength of seeds unless those
/// seeds re-derive the owner's address under the program of the ledger, nor on
/// the strength of a signature unless the owner's address lies on the curve.
pub proof fn transfer_needs_derivation(s: LedgerState, ix: TransferCheckedView, signer: Identity)
    requires
        s.transferred(ix, signer) is Ok,
    ensures
        ix.signer_seeds matches Some(seeds) ==> program_address(seeds, s.program) == Some(
            ix.from.owner,
        ),
        ix.signer_seeds is None ==> on_curve(ix.from.owner),
{
}

/// No holding account is closed unless its owner stands behind the closing,
/// and none that still holds a balance: a closing destroys nothing.
pub proof fn close_needs_authority(
    s: LedgerState,
    ix: CloseAccountView,
    signer: Identity,
    evidence: Evidence,
)
    requires
        s.closed_with(ix, signer, evidence) is Ok,
    ensures
        ix.authority == ix.account.owner,
        ix.signer_seeds is None ==> signer == ix.account.owner && evidence.signer_on_curve,
        ix.signer_seeds is Some ==> evidence.rederived == Some(ix.account.owner),
        s.holdings[ix.account].amount == 0,
{
}

/// A holding account that still holds a balance is not closed, whoever asks:
/// it stays, with its balance, and no deposit is paid.
pub proof fn funded_account_stays(
    s: LedgerState,
    ix: CloseAccountView,
    signer: Identity,
    evidence: Evidence,
)
    requires
        s.holdings.contains_key(ix.account),
        s.holdings[ix.account].amount != 0,
    ensures
        s.closed_with(ix, signer, evidence) is Err,
        s.closed(ix, signer) is Err,
{
}

/// Every live record stands at an address off the curve, for which no private
/// key can sign.
pub open spec fn records_sealed(s: LedgerState) -> bool {
    forall|a: Identity| #[trigger] s.records.contains_key(a) ==> !on_curve(a)
}

/// Nothing leaves the vault of a live record, and the vault is not closed,
/// unless the instruction carries seeds that re-derive the record's address:
/// no signature stands in for them.
pub proof fn vault_needs_seeds(
    s: LedgerState,
    transfer: TransferCheckedView,
    close: CloseAccountView,
    signer: Identity,
)
    requires
        records_sealed(s),
    ensures
        s.records.contains_key(transfer.from.owner) && s.transferred(transfer, signer) is Ok
            ==> transfer.signer_seeds is Some && program_address(
            transfer.signer_seeds->Some_0,
            s.program,
        ) == Some(transfer.from.owner),
        s.records.contains_key(close.account.owner) && s.closed(close, signer) is Ok
            ==> close.signer_seeds is Some && program_address(
            close.signer_seeds->Some_0,
            s.program,
        ) == Some(close.account.owner),
{
}

/// Making an offer keeps every live record off the curve, and so does every
/// take and every refund.
pub proof fn records_stay_sealed(
    s: LedgerState,
    offer: Make,
    accounts: TakeAccounts,
    refund: Refund,
)
    requires
        records_sealed(s),
    ensures
        s.made(offer) is Ok ==> records_sealed(s.made(offer)->Ok_0.0),
        s.taken(accounts) is Ok ==> records_sealed(s.taken(accounts)->Ok_0),
        s.refunded(refund) is Ok ==> records_sealed(s.refunded(refund)->Ok_0),
{
    if s.made(offer) is Ok {
        make_settles(s, offer, on_curve(offer.maker), s.home(offer));
        let t = s.made(offer)->Ok_0.0;
        assert forall|a: Identity| #[trigger] t.records.contains_key(a) implies !on_curve(a) by {
            if a != s.made(offer)->Ok_0.1 {
                assert(s.records.contains_key(a));
            }
        }
    }
    if s.taken(accounts) is Ok {
        take_settles(s, accounts, s.proof_of(accounts.taker, accounts.escrow));
        let t = s.taken(accounts)->Ok_0;
        assert forall|a: Identity| #[trigger] t.records.contains_key(a) implies !on_curve(a) by {
            assert(s.records.contains_key(a));
        }
    }
    if s.refunded(refund) is Ok {
        refund_settles(s, refund, s.proof_of(refund.maker, refund.escrow));
        let t = s.refunded(refund)->Ok_0;
        assert forall|a: Identity| #[trigger] t.records.contains_key(a) implies !on_curve(a) by {
            assert(s.records.contains_key(a));
        }
    }
}

/// A vault is emptied by a take only where the record's stored maker, seed and
/// bump re-derive the record's address, which is the vault's owner; and the
/// withdrawal is then signed with exactly those seeds.
pub proof fn take_needs_proof(s: LedgerState, accounts: TakeAccounts)
    requires
        s.taken(accounts) is Ok,
    ensures
        s.records.contains_key(accounts.escrow),
        ({
            let data = s.records[accounts.escrow].data;
            let take = s.take_context(accounts);
            &&& program_address(escrow_signer_seeds(data.maker, data.seed, data.bump), s.program)
                == Some(accounts.escrow)
            &&& take.withdrawal().from.owner == accounts.escrow
            &&& take.withdrawal().signer_seeds == Some(
                escrow_signer_seeds(data.maker, data.seed, data.bump),
            )
        }),
{
}

/// A vault is emptied by a refund only where the record's stored maker, seed
/// and bump re-derive the record's address.
pub proof fn refund_needs_proof(s: LedgerState, refund: Refund)
    requires
        s.refunded(refund) is Ok,
    ensures
        s.records.contains_key(refund.escrow),
        ({
            let data = s.records[refund.escrow].data;
            program_address(escrow_signer_seeds(data.maker, data.seed, data.bump), s.program)
                == Some(refund.escrow)
        }),
{
}

/// A record whose stored proof derives another address than its own, or none,
/// can neither be taken nor refunded.
pub proof fn forged_proof_is_refused(
    s: LedgerState,
    accounts: TakeAccounts,
    refund: Refund,
    evidence: Evidence,
)
    requires
        refund.escrow == accounts.escrow,
        evidence.rederived != Some(accounts.escrow),
    ensures
        s.taken_with(accounts, evidence) is Err,
        s.refunded_with(refund, evidence) is Err,
{
}

/// Only the maker refunds: a refund under another identity than the record's
/// maker is refused.
pub proof fn refund_needs_maker(s: LedgerState, refund: Refund, evidence: Evidence)
    requires
        s.records.contains_key(refund.escrow),
        s.records[refund.escrow].data.maker != refund.maker,
    ensures
        s.refunded_with(refund, evidence) is Err,
        evidence.signer_on_curve ==> s.refunded_with(refund, evidence) == Err::<
            LedgerState,
            EscrowError,
        >(EscrowError::WrongMaker),
{
}

/// Once a record is gone, every take and every refund that names it is refused
/// as not found.
pub proof fn closed_record_is_not_found(
    s: LedgerState,
    accounts: TakeAccounts,
    refund: Refund,
    evidence: Evidence,
)
    requires
        !s.records.contains_key(accounts.escrow),
        refund.escrow == accounts.escrow,
    ensures
        s.taken_with(accounts, evidence) == Err::<LedgerState, EscrowError>(EscrowError::NotFound),
        s.refunded_with(refund, evidence) == Err::<LedgerState, EscrowError>(
            EscrowError::NotFound,
        ),
        s.taken(accounts) == Err::<LedgerState, EscrowError>(EscrowError::NotFound),
        s.refunded(refund) == Err::<LedgerState, EscrowError>(EscrowError::NotFound),
{
}

/// After a take, every further take or refund of the same record is refused as
/// not found.
pub proof fn nothing_after_take(
    s: LedgerState,
    accounts: TakeAccounts,
    again: TakeAccounts,
    refund: Refund,
)
    requires
        s.taken(accounts) is Ok,
        again.escrow == accounts.escrow,
        refund.escrow == accounts.escrow,
    ensures
        s.taken(accounts)->Ok_0.taken(again) == Err::<LedgerState, EscrowError>(
            EscrowError::NotFound,
        ),
        s.taken(accounts)->Ok_0.refunded(refund) == Err::<LedgerState, EscrowError>(
            EscrowError::NotFound,
        ),
{
    take_settles(s, accounts, s.proof_of(accounts.taker, accounts.escrow));
}

/// After a refund, every further refund or take of the same record is refused
/// as not found.
pub proof fn nothing_after_refund(
    s: LedgerState,
    refund: Refund,
    again: Refund,
    accounts: TakeAccounts,
)
    requires
        s.refunded(refund) is Ok,
        again.escrow == refund.escrow,
        accounts.escrow == refund.escrow,
    ensures
        s.refunded(refund)->Ok_0.refunded(again) == Err::<LedgerState, EscrowError>(
            EscrowError::NotFound,
        ),
        s.refunded(refund)->Ok_0.taken(accounts) == Err::<LedgerState, EscrowError>(
            EscrowError::NotFound,
        ),
{
    refund_settles(s, refund, s.proof_of(refund.maker, refund.escrow));
}

/// A take and a refund that race for one record: whichever the ledger runs
/// first settles, in full and alone, and the other is refused as not found.
/// Exactly one succeeds, and the ledger ends as that one leaves it: after the
/// take the vault is with the taker and the maker's account of asset A is what
/// the take made of it, after the refund the vault is with the maker.
pub proof fn exactly_one_settles(s: LedgerState, accounts: TakeAccounts, refund: Refund)
    requires
        s.taken(accounts) is Ok,
        s.refunded(refund) is Ok,
        refund.escrow == accounts.escrow,
    ensures
        s.taken(accounts)->Ok_0.refunded(refund) == Err::<LedgerState, EscrowError>(
            EscrowError::NotFound,
        ),
        take_settlement(s, accounts, s.taken(accounts)->Ok_0),
        s.refunded(refund)->Ok_0.taken(accounts) == Err::<LedgerState, EscrowError>(
            EscrowError::NotFound,
        ),
        refund_settlement(s, refund, s.refunded(refund)->Ok_0),
{
    nothing_after_take(s, accounts, accounts, refund);
    nothing_after_refund(s, refund, refund, accounts);
    take_settles(s, accounts, s.proof_of(accounts.taker, accounts.escrow));
    refund_settles(s, refund, s.proof_of(refund.maker, refund.escrow));
}

/// Every record of `s` but the one at `closed` is still in `t`, unchanged.
pub open spec fn records_unchanged(s: LedgerState, t: LedgerState, closed: Option<Identity>) -> bool {
    forall|a: Identity| #[trigger]
        s.records.contains_key(a) && closed != Some(a) ==> t.records.contains_key(a)
            && t.records[a] == s.records[a]
}

/// A record never changes while it lives: making an offer leaves every
/// existing record as it was, and a take or a refund leaves every record but
/// the one it closes as it was, whoever the parties are.
pub proof fn records_are_immutable(
    s: LedgerState,
    offer: Make,
    accounts: TakeAccounts,
    refund: Refund,
)
    ensures
        s.made(offer) is Ok ==> records_unchanged(s, s.made(offer)->Ok_0.0, None),
        s.taken(accounts) is Ok ==> records_unchanged(
            s,
            s.taken(accounts)->Ok_0,
            Some(accounts.escrow),
        ),
        s.refunded(refund) is Ok ==> records_unchanged(
            s,
            s.refunded(refund)->Ok_0,
            Some(refund.escrow),
        ),
{
    if s.made(offer) is Ok {
        make_settles(s, offer, on_curve(offer.maker), s.home(offer));
    }
    if s.taken(accounts) is Ok {
        take_settles(s, accounts, s.proof_of(accounts.taker, accounts.escrow));
    }
    if s.refunded(refund) is Ok {
        refund_settles(s, refund, s.proof_of(refund.maker, refund.escrow));
    }
}

/// Every live record has its vault: the holding account of the record's
/// address for the asset the record gives.
pub open spec fn records_have_vaults(s: LedgerState) -> bool {
    forall|a: Identity| #[trigger]
        s.records.contains_key(a) ==> s.holdings.contains_key(
            HoldingId { owner: a, mint: s.records[a].data.mint_a },
        )
}

/// Making an offer keeps every live record with its vault.
pub proof fn make_keeps_vaults(
    s: LedgerState,
    offer: Make,
    signer_on_curve: bool,
    home: Option<Home>,
)
    requires
        records_have_vaults(s),
        s.made_at(offer, signer_on_curve, home) is Ok,
    ensures
        records_have_vaults(s.made_at(offer, signer_on_curve, home)->Ok_0.0),
{
    make_settles(s, offer, signer_on_curve, home);
    let t = s.made_at(offer, signer_on_curve, home)->Ok_0.0;
    let address = s.made_at(offer, signer_on_curve, home)->Ok_0.1;
    assert forall|a: Identity| #[trigger] t.records.contains_key(a) implies t.holdings.contains_key(
        HoldingId { owner: a, mint: t.records[a].data.mint_a },
    ) by {
        if a != address {
            assert(s.records.contains_key(a));
            let id = HoldingId { owner: a, mint: s.records[a].data.mint_a };
            assert(s.holdings.contains_key(id));
            if id != offer.source() {
                assert(t.holdings.contains_key(id) == s.holdings.contains_key(id));
            }
        }
    }
}

/// A take keeps every other live record with its vault.
pub proof fn take_keeps_vaults(s: LedgerState, accounts: TakeAccounts, evidence: Evidence)
    requires
        records_have_vaults(s),
        s.taken_with(accounts, evidence) is Ok,
    ensures
        records_have_vaults(s.taken_with(accounts, evidence)->Ok_0),
{
    take_settles(s, accounts, evidence);
    let t = s.taken_with(accounts, evidence)->Ok_0;
    assert forall|a: Identity| #[trigger] t.records.contains_key(a) implies t.holdings.contains_key(
        HoldingId { owner: a, mint: t.records[a].data.mint_a },
    ) by {
        assert(s.records.contains_key(a) && a != accounts.escrow);
        let id = HoldingId { owner: a, mint: s.records[a].data.mint_a };
        assert(s.holdings.contains_key(id));
        assert(id != s.take_context(accounts).vault.id());
        assert(t.holdings.contains_key(id));
    }
}

/// A refund keeps every other live record with its vault.
pub proof fn refund_keeps_vaults(s: LedgerState, refund: Refund, evidence: Evidence)
    requires
        records_have_vaults(s),
        s.refunded_with(refund, evidence) is Ok,
    ensures
        records_have_vaults(s.refunded_with(refund, evidence)->Ok_0),
{
    refund_settles(s, refund, evidence);
    let t = s.refunded_with(refund, evidence)->Ok_0;
    assert forall|a: Identity| #[trigger] t.records.contains_key(a) implies t.holdings.contains_key(
        HoldingId { owner: a, mint: t.records[a].data.mint_a },
    ) by {
        assert(s.records.contains_key(a) && a != refund.escrow);
        let id = HoldingId { owner: a, mint: s.records[a].data.mint_a };
        assert(s.holdings.contains_key(id));
        assert(id != refund.vault());
        if id != refund.target() {
            assert(t.holdings.contains_key(id) == s.holdings.contains_key(id));
        }
    }
}

} // verus!
