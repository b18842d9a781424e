use dash_ha::key::{Key, OwnedKey, OwnedTableId, TableId};
use std::collections::HashMap;

#[test]
fn borrowed_and_owned_keys_compare_equal() {
    let borrowed = Key::new("APPL_DB", "DASH_ENI", "eni0");
    let owned = Key::new_owned("APPL_DB".to_string(), "DASH_ENI".to_string(), "eni0".to_string());
    assert!(borrowed == owned);
    assert_eq!(borrowed.db(), "APPL_DB");
    assert_eq!(borrowed.table(), "DASH_ENI");
    assert_eq!(borrowed.key(), "eni0");
    assert!(owned.as_ref() == borrowed);
    assert!(borrowed.clone() == borrowed);
}

#[test]
fn keys_that_differ_in_one_part_are_not_equal() {
    let key = Key::new("db", "table", "row");
    assert!(key != Key::new("dc", "table", "row"));
    assert!(key != Key::new("db", "tables", "row"));
    assert!(key != Key::new("db", "table", "rov"));
    assert!(key != Key::new("table", "db", "row"));
}

#[test]
fn key_from_a_tuple() {
    let key = Key::from(("db", "table", "row"));
    assert!(key == Key::new("db", "table", "row"));
}

#[test]
fn owned_key_keeps_the_triple() {
    let owned = OwnedKey::new("db".to_string(), "table".to_string(), "row".to_string());
    assert!(*owned.borrow() == Key::new("db", "table", "row"));
    assert!(Key::new("db", "table", "row").into_owned_key() == owned);
    assert!(owned.clone() == owned);
    assert!(owned != OwnedKey::new("db".to_string(), "table".to_string(), "other".to_string()));
}

#[test]
fn owned_and_borrowed_keys_hash_alike() {
    let mut map: HashMap<Key<'static>, u32> = HashMap::new();
    map.insert(Key::new_owned("db".to_string(), "table".to_string(), "row".to_string()), 7);
    assert_eq!(map.get(&Key::new("db", "table", "row")), Some(&7));
    assert_eq!(map.get(&Key::new("db", "table", "other")), None);
}

#[test]
fn borrowed_key_probes_a_map_of_owned_keys() {
    let mut map: HashMap<OwnedKey, u32> = HashMap::new();
    map.insert(OwnedKey::new("db".to_string(), "table".to_string(), "row".to_string()), 7);
    assert_eq!(map.get(&Key::new("db", "table", "row")), Some(&7));
    assert_eq!(map.get(&Key::new("db", "table", "other")), None);
    let mut ids: HashMap<OwnedTableId, u32> = HashMap::new();
    ids.insert(OwnedTableId::new("db".to_string(), "table".to_string()), 8);
    assert_eq!(ids.get(&TableId::new("db".to_string(), "table".to_string())), Some(&8));
    let owned = OwnedKey::new("db".to_string(), "table".to_string(), "row".to_string());
    assert_eq!(owned.db(), "db");
    assert_eq!(owned.key(), "row");
}

#[test]
fn keys_are_ordered_part_by_part() {
    assert!(Key::new("a", "z", "z") < Key::new("b", "a", "a"));
    assert!(Key::new("a", "a", "z") < Key::new("a", "b", "a"));
    assert!(Key::new("a", "a", "a") < Key::new("a", "a", "b"));
    assert!(Key::new("a", "a", "a") < Key::new("a", "a", "aa"));
    assert!(Key::new("a", "a", "") < Key::new("a", "a", "a"));
    assert!(Key::new("a", "a", "Z") < Key::new("a", "a", "a"));
    assert!(Key::new("a", "a", "z") < Key::new("a", "a", "é"));
    assert!(!(Key::new("a", "b", "c") < Key::new("a", "b", "c")));
    assert_eq!(Key::new("a", "b", "c").partial_cmp(&Key::new("a", "b", "c")), Some(std::cmp::Ordering::Equal));
    assert_eq!(Key::new("b", "b", "c").cmp(&Key::new("a", "b", "c")), std::cmp::Ordering::Greater);
    let mut keys = vec![Key::new("b", "a", "a"), Key::new("a", "b", "a"), Key::new("a", "a", "b")];
    keys.sort();
    assert!(keys[0] == Key::new("a", "a", "b") && keys[1] == Key::new("a", "b", "a"));
    let owned = |id: &str| OwnedKey::new("db".to_string(), "t".to_string(), id.to_string());
    assert!(owned("a") < owned("b"));
    assert!(owned("b") > owned("a"));
    assert!(TableId::new("a".to_string(), "b".to_string()) < TableId::new("a".to_string(), "c".to_string()));
    assert!(
        OwnedTableId::new("a".to_string(), "z".to_string()) < OwnedTableId::new("b".to_string(), "a".to_string())
    );
}

#[test]
fn keys_as_text() {
    assert_eq!(Key::new("APPL_DB", "DASH_ENI", "eni0").to_string(), "APPL_DB:DASH_ENI:eni0");
    let owned = OwnedKey::new("a".to_string(), "b".to_string(), "c".to_string());
    assert_eq!(owned.to_string(), "a:b:c");
    assert_eq!(TableId::new("a".to_string(), "b".to_string()).to_string(), "a:b");
    assert_eq!(OwnedTableId::new("x".to_string(), "y".to_string()).to_string(), "x:y");
}

#[test]
fn table_id_drops_the_row() {
    let key = Key::new("db", "table", "row");
    let id = TableId::of_key(&key);
    assert!(id == TableId::new("db".to_string(), "table".to_string()));
    assert!(*OwnedTableId::new("db".to_string(), "table".to_string()).borrow() == id);
    assert!(id != TableId::new("db".to_string(), "other".to_string()));
    assert_eq!(id.db(), "db");
    assert_eq!(id.table(), "table");
    assert!(id.clone() == id);
    let owned = OwnedTableId::new("db".to_string(), "table".to_string());
    assert!(owned.clone() == owned);
}
