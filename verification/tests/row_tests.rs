use dash_ha::row::FieldValues;

fn row(fields: &[(&str, &str)]) -> FieldValues {
    let mut fvs = FieldValues::new();
    for (field, value) in fields {
        fvs.insert(field.to_string(), value.as_bytes().to_vec());
    }
    fvs
}

#[test]
fn new_row_is_empty() {
    let fvs = FieldValues::new();
    assert_eq!(fvs.len(), 0);
    assert!(fvs.is_empty());
    assert!(fvs.get("x").is_none());
    assert!(!fvs.contains_key("x"));
}

#[test]
fn insert_sets_and_replaces() {
    let mut fvs = FieldValues::new();
    assert_eq!(fvs.insert("x".to_string(), b"1".to_vec()), None);
    assert_eq!(fvs.insert("y".to_string(), b"2".to_vec()), None);
    assert_eq!(fvs.len(), 2);
    assert_eq!(fvs.get("x"), Some(&b"1".to_vec()));
    assert_eq!(fvs.get("y"), Some(&b"2".to_vec()));
    assert_eq!(fvs.insert("x".to_string(), b"3".to_vec()), Some(b"1".to_vec()));
    assert_eq!(fvs.len(), 2);
    assert_eq!(fvs.get("x"), Some(&b"3".to_vec()));
    assert_eq!(fvs.get("y"), Some(&b"2".to_vec()));
    assert!(fvs.contains_key("x"));
    assert!(!fvs.is_empty());
}

#[test]
fn remove_takes_one_field_out() {
    let mut fvs = row(&[("a", "1"), ("b", "2"), ("c", "3")]);
    assert_eq!(fvs.remove("b"), Some(b"2".to_vec()));
    assert_eq!(fvs.remove("b"), None);
    assert_eq!(fvs.len(), 2);
    assert_eq!(fvs.get("a"), Some(&b"1".to_vec()));
    assert_eq!(fvs.get("c"), Some(&b"3".to_vec()));
    assert!(fvs.get("b").is_none());
}

#[test]
fn rows_are_equal_whatever_the_order_of_their_fields() {
    let a = row(&[("a", "1"), ("b", "2")]);
    let b = row(&[("b", "2"), ("a", "1")]);
    assert!(a == b);
    assert!(a != row(&[("a", "1")]));
    assert!(a != row(&[("a", "1"), ("b", "3")]));
    assert!(a != row(&[("a", "1"), ("c", "2")]));
    assert!(row(&[("a", "1")]) != a);
    assert!(a.clone() == a);
}

#[test]
fn extend_prefers_the_other_row() {
    let mut fvs = row(&[("a", "1"), ("b", "2")]);
    fvs.extend(&row(&[("b", "20"), ("c", "30")]));
    assert!(fvs == row(&[("a", "1"), ("b", "20"), ("c", "30")]));
    fvs.extend(&FieldValues::new());
    assert!(fvs == row(&[("a", "1"), ("b", "20"), ("c", "30")]));
}
