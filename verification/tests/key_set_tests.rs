use dash_ha::key::{Key, OwnedKey};
use dash_ha::key_set::KeySet;

fn key(id: &str) -> OwnedKey {
    OwnedKey::new("db".to_string(), "table".to_string(), id.to_string())
}

#[test]
fn key_set_keeps_each_key_once_and_in_order() {
    let mut set = KeySet::new();
    assert_eq!(set.len(), 0);
    assert!(set.insert(key("b")));
    assert!(set.insert(key("a")));
    assert!(!set.insert(key("b")));
    assert_eq!(set.len(), 2);
    assert!(set.contains(&Key::new("db", "table", "a")));
    assert!(!set.contains(&Key::new("db", "table", "c")));
    let keys = set.keys();
    assert!(keys.len() == 2 && keys[0] == key("b") && keys[1] == key("a"));
}

#[test]
fn key_set_removes_what_is_there() {
    let mut set = KeySet::new();
    set.insert(key("a"));
    set.insert(key("b"));
    set.insert(key("c"));
    assert!(set.remove(key("b").borrow()));
    assert!(!set.remove(key("b").borrow()));
    let keys = set.keys();
    assert!(keys.len() == 2 && keys[0] == key("a") && keys[1] == key("c"));
    assert!(set.remove(key("a").borrow()));
    assert!(set.remove(key("c").borrow()));
    assert_eq!(set.len(), 0);
}
