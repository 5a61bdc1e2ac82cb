use http::headers::Headers;

#[test]
fn new_mapping_is_empty() {
    let h = Headers::new();
    assert_eq!(h.len(), 0);
    assert_eq!(h.entry(0), None);
    assert_eq!(h.get("Content-Type"), None);
}

#[test]
fn insert_adds_new_names_at_the_end() {
    let mut h = Headers::new();
    assert_eq!(h.insert("B", "2"), None);
    assert_eq!(h.insert("A", "1"), None);
    assert_eq!(h.insert("C", "3"), None);
    assert_eq!(h.len(), 3);
    assert_eq!(h.entry(0), Some(("B", "2")));
    assert_eq!(h.entry(1), Some(("A", "1")));
    assert_eq!(h.entry(2), Some(("C", "3")));
    assert_eq!(h.entry(3), None);
    assert_eq!(h.entry(usize::MAX), None);
}

#[test]
fn insert_replaces_the_value_in_place() {
    let mut h = Headers::new();
    h.insert("B", "2");
    h.insert("A", "1");
    h.insert("C", "3");
    assert_eq!(h.insert("A", "one"), Some("1"));
    assert_eq!(h.len(), 3);
    assert_eq!(h.entry(0), Some(("B", "2")));
    assert_eq!(h.entry(1), Some(("A", "one")));
    assert_eq!(h.entry(2), Some(("C", "3")));
    assert_eq!(h.insert("A", "uno"), Some("one"));
    assert_eq!(h.insert("C", "tres"), Some("3"));
    assert_eq!(h.insert("B", "dos"), Some("2"));
    assert_eq!(h.len(), 3);
    assert_eq!(h.entry(0), Some(("B", "dos")));
    assert_eq!(h.entry(1), Some(("A", "uno")));
    assert_eq!(h.entry(2), Some(("C", "tres")));
}

#[test]
fn get_finds_by_exact_name() {
    let mut h = Headers::new();
    h.insert("Content-Type", "text/html");
    h.insert("Server", "toy");
    assert_eq!(h.get("Content-Type"), Some("text/html"));
    assert_eq!(h.get("Server"), Some("toy"));
    assert_eq!(h.get("content-type"), None);
    assert_eq!(h.get("Content-Typ"), None);
    assert_eq!(h.get("Content-Type "), None);
    assert_eq!(h.get(""), None);
}

#[test]
fn names_with_the_same_length_are_told_apart() {
    let mut h = Headers::new();
    h.insert("ab", "1");
    h.insert("ac", "2");
    h.insert("\u{e9}", "3");
    assert_eq!(h.len(), 3);
    assert_eq!(h.get("ab"), Some("1"));
    assert_eq!(h.get("ac"), Some("2"));
    assert_eq!(h.get("\u{e9}"), Some("3"));
    assert_eq!(h.get("\u{e8}"), None);
}

#[test]
fn clone_and_equality() {
    let mut h = Headers::new();
    h.insert("A", "1");
    h.insert("B", "2");
    let c = h.clone();
    assert_eq!(h, c);
    assert_eq!(c.len(), 2);
    assert_eq!(c.entry(0), Some(("A", "1")));
    assert_eq!(c.entry(1), Some(("B", "2")));
    let mut d = h.clone();
    d.insert("B", "3");
    assert_ne!(h, d);
    assert_eq!(h.get("B"), Some("2"));
}
