use token_registry::registry::BasicTokenCreator;
use token_registry::token::{RegistryError, TokenBook, TokenInfo, PLACEHOLDER_CREATOR};

const ALICE: &str = "GALICEAAAAAAAAAAAAAAAAAAAAAAAAAAAAAAAAAAAAAAAAAAAAAAAAAA";
const BOB: &str = "GBOBAAAAAAAAAAAAAAAAAAAAAAAAAAAAAAAAAAAAAAAAAAAAAAAAAAAA";

fn s(v: &str) -> String {
    v.to_string()
}

fn create(reg: &mut BasicTokenCreator, creator: &str, name: &str, symbol: &str, supply: i128) -> Result<u64, RegistryError> {
    reg.create_token(s(creator), s(name), s(symbol), supply, 1_700_000_000)
}

#[test]
fn ids_are_consecutive_from_one() {
    let mut reg = BasicTokenCreator::new();
    assert_eq!(create(&mut reg, ALICE, "A", "A", 1), Ok(1));
    assert_eq!(create(&mut reg, BOB, "B", "B", 2), Ok(2));
    assert_eq!(create(&mut reg, ALICE, "C", "C", 3), Ok(3));
}

#[test]
fn count_matches_number_of_creations() {
    let mut reg = BasicTokenCreator::new();
    assert_eq!(reg.get_total_tokens(), 0);
    for i in 1..=5i128 {
        assert!(create(&mut reg, ALICE, "T", "T", i).is_ok());
    }
    assert_eq!(reg.get_total_tokens(), 5);
    assert_eq!(create(&mut reg, ALICE, "T", "T", 9), Ok(6));
}

#[test]
fn read_your_write() {
    let mut reg = BasicTokenCreator::new();
    let k = reg.create_token(s(ALICE), s("Foo"), s("FOO"), 1000, 42).unwrap();
    let info = reg.get_token_info(k);
    assert_eq!(info.token_id, k);
    assert_eq!(info.name, "Foo");
    assert_eq!(info.symbol, "FOO");
    assert_eq!(info.total_supply, 1000);
    assert_eq!(info.creator, ALICE);
    assert_eq!(info.created_at, 42);
}

#[test]
fn absent_id_gives_absence_record() {
    let reg = BasicTokenCreator::new();
    let info = reg.get_token_info(999999);
    assert_eq!(info.token_id, 0);
    assert_eq!(info.name, "Not_Found");
    assert_eq!(info.symbol, "N/A");
    assert_eq!(info.total_supply, 0);
    assert_eq!(info.creator, PLACEHOLDER_CREATOR);
    assert_eq!(info.created_at, 0);
}

#[test]
fn id_zero_is_never_a_token() {
    let mut reg = BasicTokenCreator::new();
    create(&mut reg, ALICE, "A", "A", 1).unwrap();
    assert_eq!(reg.get_token_info(0).token_id, 0);
    assert_eq!(reg.get_token_info(2).name, "Not_Found");
}

#[test]
fn update_by_other_account_is_refused() {
    let mut reg = BasicTokenCreator::new();
    let k = create(&mut reg, ALICE, "Foo", "FOO", 1000).unwrap();
    assert_eq!(reg.update_supply(k, s(BOB), 500), Err(RegistryError::NotCreator));
    let info = reg.get_token_info(k);
    assert_eq!(info.total_supply, 1000);
    assert_eq!(info.creator, ALICE);
}

#[test]
fn non_positive_supply_is_refused_at_creation() {
    let mut reg = BasicTokenCreator::new();
    assert_eq!(create(&mut reg, ALICE, "X", "X", 0), Err(RegistryError::InvalidSupply));
    assert_eq!(create(&mut reg, ALICE, "X", "X", -5), Err(RegistryError::InvalidSupply));
    assert_eq!(reg.get_total_tokens(), 0);
    assert_eq!(create(&mut reg, ALICE, "X", "X", 1), Ok(1));
}

#[test]
fn update_changes_supply_only() {
    let mut reg = BasicTokenCreator::new();
    let k = reg.create_token(s(ALICE), s("Foo"), s("FOO"), 1000, 42).unwrap();
    assert_eq!(reg.update_supply(k, s(ALICE), 777), Ok(()));
    let info = reg.get_token_info(k);
    assert_eq!(info.token_id, k);
    assert_eq!(info.name, "Foo");
    assert_eq!(info.symbol, "FOO");
    assert_eq!(info.creator, ALICE);
    assert_eq!(info.created_at, 42);
    assert_eq!(info.total_supply, 777);
    assert_eq!(reg.get_total_tokens(), 1);
}

#[test]
fn update_with_non_positive_supply_is_refused() {
    let mut reg = BasicTokenCreator::new();
    let k = create(&mut reg, ALICE, "Foo", "FOO", 1000).unwrap();
    assert_eq!(reg.update_supply(k, s(ALICE), 0), Err(RegistryError::InvalidSupply));
    assert_eq!(reg.update_supply(k, s(ALICE), -1), Err(RegistryError::InvalidSupply));
    assert_eq!(reg.get_token_info(k).total_supply, 1000);
}

#[test]
fn update_of_absent_token_is_refused() {
    let mut reg = BasicTokenCreator::new();
    assert_eq!(reg.update_supply(3, s(ALICE), 10), Err(RegistryError::NotFound));
    assert_eq!(reg.update_supply(0, s(PLACEHOLDER_CREATOR), 10), Err(RegistryError::NotFound));
}

#[test]
fn supply_check_comes_before_existence_and_ownership() {
    let mut reg = BasicTokenCreator::new();
    let k = create(&mut reg, ALICE, "Foo", "FOO", 1000).unwrap();
    assert_eq!(reg.update_supply(99, s(BOB), 0), Err(RegistryError::InvalidSupply));
    assert_eq!(reg.update_supply(99, s(BOB), 5), Err(RegistryError::NotFound));
    assert_eq!(reg.update_supply(k, s(BOB), -3), Err(RegistryError::InvalidSupply));
}

#[test]
fn largest_supply_is_accepted() {
    let mut reg = BasicTokenCreator::new();
    let k = create(&mut reg, ALICE, "Big", "BIG", i128::MAX).unwrap();
    assert_eq!(reg.get_token_info(k).total_supply, i128::MAX);
    assert_eq!(reg.update_supply(k, s(ALICE), i128::MAX), Ok(()));
}

#[test]
fn records_are_independent() {
    let mut reg = BasicTokenCreator::new();
    let a = create(&mut reg, ALICE, "A", "AA", 10).unwrap();
    let b = create(&mut reg, BOB, "B", "BB", 20).unwrap();
    assert_eq!(reg.update_supply(b, s(BOB), 21), Ok(()));
    assert_eq!(reg.get_token_info(a).total_supply, 10);
    assert_eq!(reg.get_token_info(b).total_supply, 21);
    assert_eq!(reg.update_supply(a, s(BOB), 11), Err(RegistryError::NotCreator));
}

#[test]
fn key_names_the_token_id() {
    let mut reg = BasicTokenCreator::new();
    let k = create(&mut reg, ALICE, "A", "A", 1).unwrap();
    let key = reg.get_token_info(k).key();
    assert_eq!(key, TokenBook::Token(k));
    assert_eq!(key.token_id(), k);
}

#[test]
fn absence_record_and_copy() {
    let r = TokenInfo::absence_record();
    assert_eq!(r.token_id, 0);
    assert_eq!(r.name, "Not_Found");
    let c = r.duplicate();
    assert_eq!(c.symbol, "N/A");
    assert_eq!(c.creator, PLACEHOLDER_CREATOR);
}

#[test]
fn restore_from_persisted_state() {
    assert!(BasicTokenCreator::from_counters(3, 2).is_none());
    let mut reg = BasicTokenCreator::from_counters(2, 2).unwrap();
    assert_eq!(reg.get_total_tokens(), 2);
    let stored = TokenInfo {
        token_id: 2,
        name: s("Foo"),
        symbol: s("FOO"),
        total_supply: 50,
        creator: s(ALICE),
        created_at: 7,
    };
    assert!(!reg.restore_token(TokenInfo { token_id: 3, ..stored.clone() }));
    assert!(!reg.restore_token(TokenInfo { total_supply: 0, ..stored.clone() }));
    assert!(!reg.restore_token(TokenInfo { token_id: 0, ..stored.clone() }));
    assert!(reg.restore_token(stored));
    assert_eq!(reg.get_token_info(2).name, "Foo");
    assert_eq!(reg.update_supply(2, s(ALICE), 60), Ok(()));
    assert_eq!(reg.get_token_info(2).total_supply, 60);
    assert_eq!(create(&mut reg, BOB, "N", "N", 1), Ok(3));
    assert_eq!(reg.get_total_tokens(), 3);
}
