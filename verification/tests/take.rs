use escrow::account::{Escrow, EscrowAccount, HoldingId, Mint, TokenAccount};
use escrow::authority::find_escrow_address;
use escrow::error::EscrowError;
use escrow::identity::Identity;
use escrow::take::Take;

fn id(n: u8) -> Identity {
    Identity::new([n; 32])
}

fn program() -> Identity {
    id(200)
}

fn sample(receive: u64, vault_amount: u64, taker_b: u64) -> Take {
    let maker = id(1);
    let taker = id(2);
    let mint_a = Mint { key: id(10), decimals: 6 };
    let mint_b = Mint { key: id(11), decimals: 9 };
    let (key, bump) = find_escrow_address(&maker, 7, &program()).unwrap();
    Take {
        taker,
        maker,
        mint_a,
        mint_b,
        taker_ata_a: TokenAccount { owner: taker, mint: mint_a.key, amount: 3 },
        taker_ata_b: TokenAccount { owner: taker, mint: mint_b.key, amount: taker_b },
        maker_ata_b: TokenAccount { owner: maker, mint: mint_b.key, amount: 0 },
        escrow: EscrowAccount {
            key,
            data: Escrow {
                maker,
                seed: 7,
                mint_a: mint_a.key,
                mint_b: mint_b.key,
                receive,
                bump,
            },
        },
        vault: TokenAccount { owner: key, mint: mint_a.key, amount: vault_amount },
    }
}

#[test]
fn send_pays_exactly_receive_from_taker_to_maker() {
    let take = sample(50, 100, 60);
    let ix = take.send();
    assert_eq!(ix.from, HoldingId { owner: id(2), mint: id(11) });
    assert_eq!(ix.to, HoldingId { owner: id(1), mint: id(11) });
    assert_eq!(ix.authority, id(2));
    assert_eq!(ix.mint, id(11));
    assert_eq!(ix.amount, 50);
    assert_eq!(ix.decimals, 9);
    assert_eq!(ix.signer_seeds, None);
}

#[test]
fn withdraw_moves_the_whole_vault_under_the_derived_authority() {
    let take = sample(50, 100, 60);
    let ix = take.withdraw();
    assert_eq!(ix.from, HoldingId { owner: take.escrow.key, mint: id(10) });
    assert_eq!(ix.to, HoldingId { owner: id(2), mint: id(10) });
    assert_eq!(ix.authority, take.escrow.key);
    assert_eq!(ix.mint, id(10));
    assert_eq!(ix.amount, 100);
    assert_eq!(ix.decimals, 6);
    let seeds = ix.signer_seeds.unwrap();
    assert_eq!(
        seeds,
        vec![
            b"escrow".to_vec(),
            vec![1u8; 32],
            7u64.to_le_bytes().to_vec(),
            vec![take.escrow.data.bump],
        ]
    );
}

#[test]
fn withdraw_reads_the_balance_the_vault_has_now() {
    let mut take = sample(50, 100, 60);
    take.vault.amount = 137;
    assert_eq!(take.withdraw().amount, 137);
}

#[test]
fn close_pays_the_vault_deposit_to_the_maker() {
    let take = sample(50, 100, 60);
    let ix = take.close();
    assert_eq!(ix.account, HoldingId { owner: take.escrow.key, mint: id(10) });
    assert_eq!(ix.destination, id(1));
    assert_eq!(ix.authority, take.escrow.key);
    assert_eq!(ix.signer_seeds, take.withdraw().signer_seeds);
    assert!(ix.signer_seeds.is_some());
}

#[test]
fn valid_accounts_pass() {
    assert_eq!(sample(50, 100, 50).validate(&program()), Ok(()));
    assert_eq!(sample(50, 100, 60).validate(&program()), Ok(()));
}

#[test]
fn too_little_of_asset_b_is_refused() {
    assert_eq!(
        sample(50, 100, 40).validate(&program()),
        Err(EscrowError::InsufficientBalance)
    );
    assert_eq!(
        sample(50, 100, 49).validate(&program()),
        Err(EscrowError::InsufficientBalance)
    );
}

#[test]
fn wrong_mints_are_refused() {
    let mut take = sample(50, 100, 60);
    take.mint_a.key = id(99);
    assert_eq!(take.validate(&program()), Err(EscrowError::WrongMint));
    let mut take = sample(50, 100, 60);
    take.escrow.data.mint_b = id(99);
    assert_eq!(take.validate(&program()), Err(EscrowError::WrongMint));
    let mut take = sample(50, 100, 60);
    take.vault.mint = id(11);
    assert_eq!(take.validate(&program()), Err(EscrowError::WrongMint));
    let mut take = sample(50, 100, 60);
    take.maker_ata_b.mint = id(10);
    assert_eq!(take.validate(&program()), Err(EscrowError::WrongMint));
}

#[test]
fn wrong_owners_are_refused() {
    let mut take = sample(50, 100, 60);
    take.taker_ata_b.owner = id(1);
    assert_eq!(take.validate(&program()), Err(EscrowError::WrongOwner));
    let mut take = sample(50, 100, 60);
    take.vault.owner = id(1);
    assert_eq!(take.validate(&program()), Err(EscrowError::WrongOwner));
    let mut take = sample(50, 100, 60);
    take.maker_ata_b.owner = id(3);
    assert_eq!(take.validate(&program()), Err(EscrowError::WrongOwner));
}

#[test]
fn wrong_maker_is_refused() {
    let mut take = sample(50, 100, 60);
    take.maker = id(3);
    take.maker_ata_b.owner = id(3);
    assert_eq!(take.validate(&program()), Err(EscrowError::WrongMaker));
}

#[test]
fn forged_bump_is_refused() {
    let mut take = sample(50, 100, 60);
    take.escrow.data.bump = take.escrow.data.bump.wrapping_sub(1);
    assert_eq!(take.validate(&program()), Err(EscrowError::AddressMismatch));
}

#[test]
fn forged_seed_is_refused() {
    let mut take = sample(50, 100, 60);
    take.escrow.data.seed = 8;
    assert_eq!(take.validate(&program()), Err(EscrowError::AddressMismatch));
}

#[test]
fn record_of_another_program_is_refused() {
    let take = sample(50, 100, 60);
    assert_eq!(take.validate(&id(201)), Err(EscrowError::AddressMismatch));
}

#[test]
fn mint_is_checked_before_balance() {
    let mut take = sample(50, 100, 0);
    take.mint_b.key = id(99);
    assert_eq!(take.validate(&program()), Err(EscrowError::WrongMint));
}

#[test]
fn validate_with_goes_by_the_address_derived() {
    let take = sample(50, 100, 60);
    assert_eq!(take.validate_with(Some(take.escrow.key)), Ok(()));
    assert_eq!(take.validate_with(None), Err(EscrowError::AddressMismatch));
    assert_eq!(take.validate_with(Some(id(1))), Err(EscrowError::AddressMismatch));
}

#[test]
fn validate_with_tests_the_other_preconditions_too() {
    let mut take = sample(50, 100, 40);
    let key = take.escrow.key;
    assert_eq!(take.validate_with(Some(key)), Err(EscrowError::InsufficientBalance));
    assert_eq!(take.validate_with(None), Err(EscrowError::AddressMismatch));
    take.maker = id(3);
    take.maker_ata_b.owner = id(3);
    assert_eq!(take.validate_with(Some(key)), Err(EscrowError::WrongMaker));
    take.vault.owner = id(3);
    assert_eq!(take.validate_with(Some(key)), Err(EscrowError::WrongOwner));
    take.vault.mint = id(3);
    assert_eq!(take.validate_with(Some(key)), Err(EscrowError::WrongMint));
}

#[test]
fn a_record_that_is_also_a_party_is_refused() {
    let mut take = sample(50, 100, 60);
    let key = take.escrow.key;
    take.taker = key;
    take.taker_ata_a.owner = key;
    take.taker_ata_b.owner = key;
    assert_eq!(take.validate_with(Some(key)), Err(EscrowError::WrongOwner));
    let mut take = sample(50, 100, 60);
    take.maker = key;
    take.maker_ata_b.owner = key;
    take.escrow.data.maker = key;
    assert_eq!(take.validate_with(Some(key)), Err(EscrowError::WrongOwner));
}
