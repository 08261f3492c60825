use turbosheet::engine::keys::{char_code_from, KeyCodeMap, press_code};

#[test]
fn test_key_code_map_enter() {
    assert_eq!(KeyCodeMap::new().get("enter"), Some(13i64));
}

#[test]
fn test_key_code_map_tab() {
    assert_eq!(KeyCodeMap::new().get("tab"), Some(9i64));
}

#[test]
fn test_key_code_map_escape() {
    assert_eq!(KeyCodeMap::new().get("escape"), Some(27i64));
}

#[test]
fn test_key_code_map_backspace() {
    assert_eq!(KeyCodeMap::new().get("backspace"), Some(8i64));
}

#[test]
fn test_key_code_map_delete() {
    assert_eq!(KeyCodeMap::new().get("delete"), Some(46i64));
}

#[test]
fn test_key_code_map_arrow_keys() {
    let map = KeyCodeMap::new();
    assert_eq!(map.get("arrowup"), Some(38i64));
    assert_eq!(map.get("arrowdown"), Some(40i64));
    assert_eq!(map.get("arrowleft"), Some(37i64));
    assert_eq!(map.get("arrowright"), Some(39i64));
}

#[test]
fn test_key_code_map_function_keys() {
    let map = KeyCodeMap::new();
    assert_eq!(map.get("f1"), Some(112i64));
    assert_eq!(map.get("f5"), Some(116i64));
    assert_eq!(map.get("f12"), Some(123i64));
}

#[test]
fn test_key_code_map_modifiers() {
    let map = KeyCodeMap::new();
    assert_eq!(map.get("shift"), Some(16i64));
    assert_eq!(map.get("control"), Some(17i64));
    assert_eq!(map.get("alt"), Some(18i64));
    assert_eq!(map.get("meta"), Some(91i64));
}

#[test]
fn test_key_code_map_case_sensitive() {
    let map = KeyCodeMap::new();
    assert!(map.contains_key("enter"));
    assert!(!map.contains_key("Enter"));
    assert!(!map.contains_key("ENTER"));
}

#[test]
fn test_key_code_map_nonexistent_key() {
    let map = KeyCodeMap::new();
    assert_eq!(map.get("a"), None);
    assert_eq!(map.get("z"), None);
    assert_eq!(map.get("0"), None);
}

#[test]
fn press_code_uses_the_table_in_any_case() {
    assert_eq!(press_code("Enter"), 13);
    assert_eq!(press_code("ARROWDOWN"), 40);
}

#[test]
fn press_code_falls_back_to_the_first_character() {
    assert_eq!(press_code("a"), 97);
    assert_eq!(press_code("Z"), 90);
    assert_eq!(press_code(""), 0);
}

#[test]
fn typed_characters_use_the_table_or_their_code_point() {
    assert_eq!(char_code_from('a', "a"), 97);
    assert_eq!(char_code_from('\n', "enter"), 13);
    assert_eq!(char_code_from('\u{e9}', "\u{e9}"), 233);
}
