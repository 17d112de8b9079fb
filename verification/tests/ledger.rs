use escrow::account::HoldingId;
use escrow::authority::{can_sign, escrow_signer_seeds_of, find_escrow_address};
use escrow::error::EscrowError;
use escrow::identity::Identity;
use escrow::instruction::{CloseAccount, TransferChecked};
use escrow::ledger::{signed, Evidence, Holding, Ledger};

const HOLDING_DEPOSIT: u64 = 2_000;
const RECORD_DEPOSIT: u64 = 1_500;

/// An identity that a private key can sign for.
fn id(n: u8) -> Identity {
    let mut bytes = [n; 32];
    loop {
        let candidate = Identity::new(bytes);
        if can_sign(&candidate) {
            return candidate;
        }
        bytes[31] = bytes[31].wrapping_add(1);
    }
}

fn by_signature() -> Evidence {
    Evidence { signer_on_curve: true, rederived: None }
}

fn by_seeds(rederived: Option<Identity>) -> Evidence {
    Evidence { signer_on_curve: false, rederived }
}

fn program() -> Identity {
    id(200)
}

fn holding(owner: u8, mint: u8) -> HoldingId {
    HoldingId { owner: id(owner), mint: id(mint) }
}

fn ledger() -> Ledger {
    Ledger::new(program(), HOLDING_DEPOSIT, RECORD_DEPOSIT)
}

fn funded(owner: u8, mint: u8, amount: u64) -> Ledger {
    let mut ledger = ledger();
    ledger.credit(&id(owner), 10_000).unwrap();
    ledger.open_holding(&holding(owner, mint), &id(owner)).unwrap();
    ledger.issue(&holding(owner, mint), amount).unwrap();
    ledger
}

fn transfer(from: HoldingId, to: HoldingId, amount: u64) -> TransferChecked {
    TransferChecked {
        from,
        to,
        authority: from.owner,
        mint: from.mint,
        amount,
        decimals: 6,
        signer_seeds: None,
    }
}

#[test]
fn new_ledger_is_empty() {
    let ledger = ledger();
    assert_eq!(ledger.program(), program());
    assert_eq!(ledger.holding_deposit(), HOLDING_DEPOSIT);
    assert_eq!(ledger.record_deposit(), RECORD_DEPOSIT);
    assert_eq!(ledger.balance(&id(1)), 0);
    assert_eq!(ledger.holding(&holding(1, 10)), None);
    assert_eq!(ledger.record(&id(1)), None);
}

#[test]
fn credit_adds_to_a_wallet() {
    let mut ledger = ledger();
    assert_eq!(ledger.credit(&id(1), 70), Ok(()));
    assert_eq!(ledger.credit(&id(1), 5), Ok(()));
    assert_eq!(ledger.balance(&id(1)), 75);
    assert_eq!(ledger.balance(&id(2)), 0);
}

#[test]
fn credit_beyond_a_wallet_is_refused() {
    let mut ledger = ledger();
    ledger.credit(&id(1), u64::MAX).unwrap();
    assert_eq!(ledger.credit(&id(1), 1), Err(EscrowError::Overflow));
    assert_eq!(ledger.balance(&id(1)), u64::MAX);
}

#[test]
fn opening_a_holding_costs_the_payer_its_deposit() {
    let mut ledger = ledger();
    ledger.credit(&id(9), 5_000).unwrap();
    assert_eq!(ledger.open_holding(&holding(1, 10), &id(9)), Ok(()));
    assert_eq!(
        ledger.holding(&holding(1, 10)),
        Some(Holding { amount: 0, deposit: HOLDING_DEPOSIT })
    );
    assert_eq!(ledger.balance(&id(9)), 3_000);
}

#[test]
fn opening_an_existing_holding_costs_nothing() {
    let mut ledger = funded(1, 10, 100);
    let before = ledger.balance(&id(1));
    assert_eq!(ledger.open_holding(&holding(1, 10), &id(1)), Ok(()));
    assert_eq!(ledger.balance(&id(1)), before);
    assert_eq!(ledger.holding(&holding(1, 10)).unwrap().amount, 100);
}

#[test]
fn opening_a_holding_without_funds_is_refused() {
    let mut ledger = ledger();
    ledger.credit(&id(9), HOLDING_DEPOSIT - 1).unwrap();
    assert_eq!(
        ledger.open_holding(&holding(1, 10), &id(9)),
        Err(EscrowError::InsufficientFunds)
    );
    assert_eq!(ledger.holding(&holding(1, 10)), None);
    assert_eq!(ledger.balance(&id(9)), HOLDING_DEPOSIT - 1);
}

#[test]
fn issue_needs_the_holding() {
    let mut ledger = ledger();
    assert_eq!(ledger.issue(&holding(1, 10), 5), Err(EscrowError::NotFound));
}

#[test]
fn issue_beyond_a_balance_is_refused() {
    let mut ledger = funded(1, 10, u64::MAX);
    assert_eq!(ledger.issue(&holding(1, 10), 1), Err(EscrowError::Overflow));
    assert_eq!(ledger.holding(&holding(1, 10)).unwrap().amount, u64::MAX);
}

#[test]
fn transfer_moves_the_amount() {
    let mut ledger = funded(1, 10, 100);
    ledger.open_holding(&holding(2, 10), &id(1)).unwrap();
    assert_eq!(
        ledger.transfer_checked(&transfer(holding(1, 10), holding(2, 10), 30), &id(1)),
        Ok(())
    );
    assert_eq!(ledger.holding(&holding(1, 10)).unwrap().amount, 70);
    assert_eq!(ledger.holding(&holding(2, 10)).unwrap().amount, 30);
}

#[test]
fn transfer_of_the_whole_balance() {
    let mut ledger = funded(1, 10, 100);
    ledger.open_holding(&holding(2, 10), &id(1)).unwrap();
    ledger.transfer_checked(&transfer(holding(1, 10), holding(2, 10), 100), &id(1)).unwrap();
    assert_eq!(ledger.holding(&holding(1, 10)).unwrap().amount, 0);
    assert_eq!(ledger.holding(&holding(2, 10)).unwrap().amount, 100);
}

#[test]
fn transfer_to_itself_changes_nothing() {
    let mut ledger = funded(1, 10, 100);
    assert_eq!(
        ledger.transfer_checked(&transfer(holding(1, 10), holding(1, 10), 30), &id(1)),
        Ok(())
    );
    assert_eq!(ledger.holding(&holding(1, 10)).unwrap().amount, 100);
}

#[test]
fn transfer_beyond_the_balance_is_refused() {
    let mut ledger = funded(1, 10, 100);
    ledger.open_holding(&holding(2, 10), &id(1)).unwrap();
    assert_eq!(
        ledger.transfer_checked(&transfer(holding(1, 10), holding(2, 10), 101), &id(1)),
        Err(EscrowError::InsufficientBalance)
    );
    assert_eq!(ledger.holding(&holding(1, 10)).unwrap().amount, 100);
    assert_eq!(ledger.holding(&holding(2, 10)).unwrap().amount, 0);
}

#[test]
fn transfer_between_assets_is_refused() {
    let mut ledger = funded(1, 10, 100);
    ledger.open_holding(&holding(2, 11), &id(1)).unwrap();
    assert_eq!(
        ledger.transfer_checked(&transfer(holding(1, 10), holding(2, 11), 30), &id(1)),
        Err(EscrowError::WrongMint)
    );
    let mut ix = transfer(holding(1, 10), holding(1, 10), 30);
    ix.mint = id(11);
    assert_eq!(ledger.transfer_checked(&ix, &id(1)), Err(EscrowError::WrongMint));
}

#[test]
fn transfer_to_or_from_a_missing_holding_is_refused() {
    let mut ledger = funded(1, 10, 100);
    assert_eq!(
        ledger.transfer_checked(&transfer(holding(1, 10), holding(2, 10), 30), &id(1)),
        Err(EscrowError::NotFound)
    );
    assert_eq!(
        ledger.transfer_checked(&transfer(holding(2, 10), holding(1, 10), 30), &id(2)),
        Err(EscrowError::NotFound)
    );
}

#[test]
fn transfer_beyond_the_receiver_is_refused() {
    let mut ledger = funded(1, 10, 100);
    ledger.open_holding(&holding(2, 10), &id(1)).unwrap();
    ledger.issue(&holding(2, 10), u64::MAX - 29).unwrap();
    assert_eq!(
        ledger.transfer_checked(&transfer(holding(1, 10), holding(2, 10), 30), &id(1)),
        Err(EscrowError::Overflow)
    );
    assert_eq!(ledger.holding(&holding(1, 10)).unwrap().amount, 100);
    assert_eq!(
        ledger.transfer_checked(&transfer(holding(1, 10), holding(2, 10), 29), &id(1)),
        Ok(())
    );
    assert_eq!(ledger.holding(&holding(2, 10)).unwrap().amount, u64::MAX);
}

#[test]
fn transfer_needs_the_owner_to_sign() {
    let mut ledger = funded(1, 10, 100);
    ledger.open_holding(&holding(2, 10), &id(1)).unwrap();
    let ix = transfer(holding(1, 10), holding(2, 10), 30);
    assert_eq!(ledger.transfer_checked(&ix, &id(2)), Err(EscrowError::Unauthorized));
    let mut by_other = transfer(holding(1, 10), holding(2, 10), 30);
    by_other.authority = id(2);
    assert_eq!(ledger.transfer_checked(&by_other, &id(2)), Err(EscrowError::Unauthorized));
    assert_eq!(ledger.holding(&holding(1, 10)).unwrap().amount, 100);
}

fn with_vault(amount: u64) -> (Ledger, HoldingId, Vec<Vec<u8>>) {
    let maker = id(1);
    let (address, bump) = find_escrow_address(&maker, 7, &program()).unwrap();
    let vault = HoldingId { owner: address, mint: id(10) };
    let mut ledger = funded(1, 10, amount);
    ledger.open_holding(&vault, &maker).unwrap();
    ledger.transfer_checked(&transfer(holding(1, 10), vault, amount), &maker).unwrap();
    (ledger, vault, escrow_signer_seeds_of(&maker, 7, bump))
}

#[test]
fn derived_authority_moves_the_vault() {
    let (mut ledger, vault, seeds) = with_vault(100);
    let mut ix = transfer(vault, holding(1, 10), 100);
    ix.signer_seeds = Some(seeds);
    assert_eq!(ledger.transfer_checked(&ix, &id(2)), Ok(()));
    assert_eq!(ledger.holding(&vault).unwrap().amount, 0);
    assert_eq!(ledger.holding(&holding(1, 10)).unwrap().amount, 100);
}

#[test]
fn no_signer_moves_the_vault_without_the_seeds() {
    let (mut ledger, vault, _) = with_vault(100);
    let ix = transfer(vault, holding(1, 10), 100);
    assert_eq!(ledger.transfer_checked(&ix, &id(1)), Err(EscrowError::Unauthorized));
    assert_eq!(ledger.transfer_checked(&ix, &id(2)), Err(EscrowError::Unauthorized));
    assert_eq!(ledger.holding(&vault).unwrap().amount, 100);
}

#[test]
fn forged_seeds_do_not_move_the_vault() {
    let (mut ledger, vault, seeds) = with_vault(100);
    let mut wrong_bump = seeds.clone();
    wrong_bump[3][0] = wrong_bump[3][0].wrapping_sub(1);
    let mut wrong_seed = seeds.clone();
    wrong_seed[2][0] = 8;
    let mut wrong_maker = seeds.clone();
    wrong_maker[1] = id(2).to_vec();
    let mut too_long = seeds.clone();
    too_long.push(vec![0u8; 33]);
    for forged in [wrong_bump, wrong_seed, wrong_maker, too_long, Vec::new()] {
        let mut ix = transfer(vault, holding(1, 10), 100);
        ix.signer_seeds = Some(forged);
        assert_eq!(ledger.transfer_checked(&ix, &id(1)), Err(EscrowError::Unauthorized));
    }
    assert_eq!(ledger.holding(&vault).unwrap().amount, 100);
    assert_eq!(ledger.holding(&holding(1, 10)).unwrap().amount, 0);
}

#[test]
fn seeds_of_one_program_do_not_sign_under_another() {
    let maker = id(1);
    let (address, bump) = find_escrow_address(&maker, 7, &id(201)).unwrap();
    let vault = HoldingId { owner: address, mint: id(10) };
    let mut ledger = funded(1, 10, 100);
    ledger.open_holding(&vault, &maker).unwrap();
    ledger.transfer_checked(&transfer(holding(1, 10), vault, 100), &maker).unwrap();
    let mut ix = transfer(vault, holding(1, 10), 100);
    ix.signer_seeds = Some(escrow_signer_seeds_of(&maker, 7, bump));
    assert_eq!(ledger.transfer_checked(&ix, &maker), Err(EscrowError::Unauthorized));
}

#[test]
fn derivation_of_instruction_seeds() {
    let (ledger, vault, seeds) = with_vault(100);
    assert_eq!(ledger.derivation(&None), None);
    assert_eq!(ledger.derivation(&Some(seeds)), Some(vault.owner));
    assert_eq!(ledger.derivation(&Some(Vec::new())).map(|a| a == vault.owner), Some(false));
}

#[test]
fn evidence_on_an_instruction() {
    let (ledger, vault, seeds) = with_vault(100);
    assert_eq!(ledger.evidence(&id(1), &None), by_signature());
    assert_eq!(
        ledger.evidence(&vault.owner, &Some(seeds)),
        Evidence { signer_on_curve: false, rederived: Some(vault.owner) }
    );
}

#[test]
fn signed_by_signature_or_by_seeds() {
    assert!(signed(&id(1), false, &id(1), by_signature()));
    assert!(signed(&id(1), false, &id(1), Evidence { signer_on_curve: true, rederived: Some(id(2)) }));
    assert!(!signed(&id(1), false, &id(1), by_seeds(Some(id(1)))));
    assert!(!signed(&id(1), false, &id(2), Evidence { signer_on_curve: true, rederived: Some(id(1)) }));
    assert!(signed(&id(1), true, &id(2), by_seeds(Some(id(1)))));
    assert!(!signed(&id(1), true, &id(1), Evidence { signer_on_curve: true, rederived: Some(id(2)) }));
    assert!(!signed(&id(1), true, &id(1), by_signature()));
}

#[test]
fn transfer_with_goes_by_what_the_seeds_derive() {
    let mut ledger = funded(1, 10, 100);
    ledger.open_holding(&holding(2, 10), &id(1)).unwrap();
    let mut ix = transfer(holding(1, 10), holding(2, 10), 30);
    ix.signer_seeds = Some(vec![vec![1u8]]);
    assert_eq!(ledger.transfer_with(&ix, &id(1), by_signature()), Err(EscrowError::Unauthorized));
    assert_eq!(
        ledger.transfer_with(&ix, &id(1), by_seeds(Some(id(2)))),
        Err(EscrowError::Unauthorized)
    );
    assert_eq!(ledger.holding(&holding(1, 10)).unwrap().amount, 100);
    assert_eq!(ledger.transfer_with(&ix, &id(9), by_seeds(Some(id(1)))), Ok(()));
    assert_eq!(ledger.holding(&holding(1, 10)).unwrap().amount, 70);
    assert_eq!(ledger.holding(&holding(2, 10)).unwrap().amount, 30);
}

#[test]
fn transfer_with_a_signature_goes_by_the_signer() {
    let mut ledger = funded(1, 10, 100);
    ledger.open_holding(&holding(2, 10), &id(1)).unwrap();
    let ix = transfer(holding(1, 10), holding(2, 10), 30);
    let both = Evidence { signer_on_curve: true, rederived: Some(id(1)) };
    assert_eq!(ledger.transfer_with(&ix, &id(2), both), Err(EscrowError::Unauthorized));
    assert_eq!(
        ledger.transfer_with(&ix, &id(1), by_seeds(Some(id(1)))),
        Err(EscrowError::Unauthorized)
    );
    assert_eq!(ledger.holding(&holding(1, 10)).unwrap().amount, 100);
    assert_eq!(ledger.transfer_with(&ix, &id(1), by_signature()), Ok(()));
    assert_eq!(ledger.holding(&holding(2, 10)).unwrap().amount, 30);
}

#[test]
fn the_owner_of_a_vault_cannot_sign_for_it() {
    let (mut ledger, vault, _) = with_vault(100);
    assert!(!can_sign(&vault.owner));
    let ix = transfer(vault, holding(1, 10), 100);
    assert_eq!(ledger.transfer_checked(&ix, &vault.owner), Err(EscrowError::Unauthorized));
    let close = CloseAccount {
        account: vault,
        destination: id(1),
        authority: vault.owner,
        signer_seeds: None,
    };
    assert_eq!(ledger.close_account(&close, &vault.owner), Err(EscrowError::Unauthorized));
    assert_eq!(ledger.holding(&vault).unwrap().amount, 100);
}

#[test]
fn close_with_goes_by_what_the_seeds_derive() {
    let mut ledger = funded(1, 10, 0);
    let ix = CloseAccount {
        account: holding(1, 10),
        destination: id(3),
        authority: id(1),
        signer_seeds: Some(vec![vec![1u8]]),
    };
    assert_eq!(ledger.close_with(&ix, &id(1), by_signature()), Err(EscrowError::Unauthorized));
    assert_eq!(
        ledger.close_with(&ix, &id(1), by_seeds(Some(id(3)))),
        Err(EscrowError::Unauthorized)
    );
    assert!(ledger.holding(&holding(1, 10)).is_some());
    assert_eq!(ledger.close_with(&ix, &id(3), by_seeds(Some(id(1)))), Ok(()));
    assert_eq!(ledger.holding(&holding(1, 10)), None);
    assert_eq!(ledger.balance(&id(3)), HOLDING_DEPOSIT);
}

#[test]
fn close_pays_the_deposit_to_the_destination() {
    let mut ledger = funded(1, 10, 0);
    let before = ledger.balance(&id(3));
    let ix = CloseAccount {
        account: holding(1, 10),
        destination: id(3),
        authority: id(1),
        signer_seeds: None,
    };
    assert_eq!(ledger.close_account(&ix, &id(1)), Ok(()));
    assert_eq!(ledger.holding(&holding(1, 10)), None);
    assert_eq!(ledger.balance(&id(3)), before + HOLDING_DEPOSIT);
}

#[test]
fn close_needs_the_owner() {
    let mut ledger = funded(1, 10, 0);
    let ix = CloseAccount {
        account: holding(1, 10),
        destination: id(3),
        authority: id(1),
        signer_seeds: None,
    };
    assert_eq!(ledger.close_account(&ix, &id(3)), Err(EscrowError::Unauthorized));
    let by_other = CloseAccount { authority: id(3), ..ix.clone() };
    assert_eq!(ledger.close_account(&by_other, &id(3)), Err(EscrowError::Unauthorized));
    assert!(ledger.holding(&holding(1, 10)).is_some());
    assert_eq!(ledger.balance(&id(3)), 0);
}

#[test]
fn close_of_a_missing_holding_is_refused() {
    let mut ledger = ledger();
    let ix = CloseAccount {
        account: holding(1, 10),
        destination: id(3),
        authority: id(1),
        signer_seeds: None,
    };
    assert_eq!(ledger.close_account(&ix, &id(1)), Err(EscrowError::NotFound));
}

#[test]
fn close_beyond_the_destination_wallet_is_refused() {
    let mut ledger = funded(1, 10, 0);
    ledger.credit(&id(3), u64::MAX).unwrap();
    let ix = CloseAccount {
        account: holding(1, 10),
        destination: id(3),
        authority: id(1),
        signer_seeds: None,
    };
    assert_eq!(ledger.close_account(&ix, &id(1)), Err(EscrowError::Overflow));
    assert!(ledger.holding(&holding(1, 10)).is_some());
    assert_eq!(ledger.balance(&id(3)), u64::MAX);
}

#[test]
fn derived_authority_closes_the_vault() {
    let (mut ledger, vault, seeds) = with_vault(0);
    let ix = CloseAccount {
        account: vault,
        destination: id(1),
        authority: vault.owner,
        signer_seeds: Some(seeds),
    };
    let before = ledger.balance(&id(1));
    assert_eq!(ledger.close_account(&ix, &id(2)), Ok(()));
    assert_eq!(ledger.holding(&vault), None);
    assert_eq!(ledger.balance(&id(1)), before + HOLDING_DEPOSIT);
}

#[test]
fn duplicate_ledger_is_independent() {
    let ledger = funded(1, 10, 100);
    let mut copy = ledger.duplicate();
    copy.issue(&holding(1, 10), 5).unwrap();
    copy.credit(&id(1), 5).unwrap();
    assert_eq!(ledger.holding(&holding(1, 10)).unwrap().amount, 100);
    assert_eq!(copy.holding(&holding(1, 10)).unwrap().amount, 105);
    assert_eq!(copy.balance(&id(1)), ledger.balance(&id(1)) + 5);
}

#[test]
fn a_funded_vault_is_not_closed() {
    let (mut ledger, vault, seeds) = with_vault(100);
    let ix = CloseAccount {
        account: vault,
        destination: id(1),
        authority: vault.owner,
        signer_seeds: Some(seeds),
    };
    let wallet = ledger.balance(&id(1));
    assert_eq!(ledger.close_account(&ix, &id(2)), Err(EscrowError::NotEmpty));
    assert_eq!(
        ledger.close_with(&ix, &id(2), by_seeds(Some(vault.owner))),
        Err(EscrowError::NotEmpty)
    );
    assert_eq!(
        ledger.holding(&vault),
        Some(Holding { amount: 100, deposit: HOLDING_DEPOSIT })
    );
    assert_eq!(ledger.balance(&id(1)), wallet);
}

#[test]
fn a_funded_holding_is_not_closed_by_its_owner() {
    let mut ledger = funded(1, 10, 1);
    let ix = CloseAccount {
        account: holding(1, 10),
        destination: id(3),
        authority: id(1),
        signer_seeds: None,
    };
    assert_eq!(ledger.close_account(&ix, &id(1)), Err(EscrowError::NotEmpty));
    assert_eq!(ledger.holding(&holding(1, 10)).unwrap().amount, 1);
    assert_eq!(ledger.balance(&id(3)), 0);
}

#[test]
fn authority_is_tested_before_the_balance() {
    let mut ledger = funded(1, 10, 1);
    let ix = CloseAccount {
        account: holding(1, 10),
        destination: id(3),
        authority: id(1),
        signer_seeds: None,
    };
    assert_eq!(ledger.close_account(&ix, &id(3)), Err(EscrowError::Unauthorized));
}
