use escrow::account::HoldingId;
use escrow::identity::Identity;
use escrow::table::{Key, Table};

fn id(n: u8) -> Identity {
    Identity::new([n; 32])
}

#[test]
fn identities_compare_by_bytes() {
    let mut bytes = [7u8; 32];
    assert!(id(7).same(&Identity::new(bytes)));
    bytes[31] = 8;
    assert!(!id(7).same(&Identity::new(bytes)));
    assert!(id(7).key_eq(&id(7)));
    assert!(!id(7).key_eq(&id(8)));
    assert_eq!(id(7).to_vec(), vec![7u8; 32]);
}

#[test]
fn holding_ids_compare_by_owner_and_mint() {
    let a = HoldingId { owner: id(1), mint: id(2) };
    assert!(a.key_eq(&HoldingId { owner: id(1), mint: id(2) }));
    assert!(!a.key_eq(&HoldingId { owner: id(1), mint: id(3) }));
    assert!(!a.key_eq(&HoldingId { owner: id(3), mint: id(2) }));
}

#[test]
fn empty_table_holds_nothing() {
    let table: Table<Identity, u64> = Table::new();
    assert_eq!(table.get(&id(1)), None);
    assert!(!table.contains(&id(1)));
}

#[test]
fn put_then_get() {
    let mut table: Table<Identity, u64> = Table::new();
    table.put(id(1), 10);
    table.put(id(2), 20);
    assert_eq!(table.get(&id(1)), Some(10));
    assert_eq!(table.get(&id(2)), Some(20));
    assert_eq!(table.get(&id(3)), None);
}

#[test]
fn put_replaces() {
    let mut table: Table<Identity, u64> = Table::new();
    table.put(id(1), 10);
    table.put(id(2), 20);
    table.put(id(1), 11);
    assert_eq!(table.get(&id(1)), Some(11));
    assert_eq!(table.get(&id(2)), Some(20));
}

#[test]
fn remove_drops_one_key() {
    let mut table: Table<Identity, u64> = Table::new();
    table.put(id(1), 10);
    table.put(id(2), 20);
    table.put(id(3), 30);
    table.remove(&id(2));
    assert_eq!(table.get(&id(1)), Some(10));
    assert_eq!(table.get(&id(2)), None);
    assert_eq!(table.get(&id(3)), Some(30));
    table.remove(&id(2));
    assert_eq!(table.get(&id(3)), Some(30));
}

#[test]
fn duplicate_is_independent() {
    let mut table: Table<Identity, u64> = Table::new();
    table.put(id(1), 10);
    let mut copy = table.duplicate();
    copy.put(id(1), 99);
    copy.put(id(2), 20);
    assert_eq!(table.get(&id(1)), Some(10));
    assert_eq!(table.get(&id(2)), None);
    assert_eq!(copy.get(&id(1)), Some(99));
}
