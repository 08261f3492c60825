use turbosheet::keyed::StrMap;

#[test]
fn a_read_gives_the_last_write() {
    let mut m: StrMap<u32> = StrMap::new();
    assert_eq!(m.len(), 0);
    m.insert("a", 1);
    m.insert("b", 2);
    m.insert("a", 3);
    assert_eq!(m.len(), 2);
    assert_eq!(m.get("a"), Some(&3));
    assert_eq!(m.get("b"), Some(&2));
    assert_eq!(m.get("c"), None);
    assert_eq!(m.take("a"), Some(3));
    assert_eq!(m.take("a"), None);
    assert_eq!(m.get("b"), Some(&2));
    assert_eq!(m.len(), 1);
}

#[test]
fn prefixed_keys_are_dropped_together() {
    let mut m: StrMap<u32> = StrMap::new();
    for (k, v) in [("p1:a", 1), ("p1:b", 2), ("p10:a", 3), ("x", 4), ("p1:", 5)] {
        m.insert(k, v);
    }
    m.remove_prefixed("p1:");
    assert_eq!(m.len(), 2);
    assert_eq!(m.get("p10:a"), Some(&3));
    assert_eq!(m.get("x"), Some(&4));
    assert_eq!(m.get("p1:a"), None);
    assert_eq!(m.get("p1:"), None);
    m.remove_prefixed("");
    assert_eq!(m.len(), 0);
}
