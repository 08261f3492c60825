use turbosheet::encoding::{decode_element_screenshot, decode_page_screenshot, decode_screenshot, fulfill_body, post_data_of};
use turbosheet::error::TurbosheetError;

fn other_text(r: Result<Vec<u8>, TurbosheetError>) -> String {
    match r {
        Err(TurbosheetError::Other(m)) => m,
        other => panic!("expected an Other error, got {:?}", other),
    }
}

#[test]
fn screenshot_decodes_base64() {
    assert_eq!(decode_screenshot("aGVsbG8=").unwrap(), b"hello".to_vec());
    assert_eq!(decode_page_screenshot("").unwrap(), Vec::<u8>::new());
    assert_eq!(decode_element_screenshot("AAEC").unwrap(), vec![0u8, 1, 2]);
}

#[test]
fn screenshot_decode_errors_carry_their_prefix() {
    assert_eq!(other_text(decode_screenshot("!!!!")), "Screenshot decode error: Invalid symbol 33, offset 0.");
    assert!(other_text(decode_page_screenshot("abc")).starts_with("Failed to decode screenshot base64: "));
    assert!(other_text(decode_element_screenshot("a")).starts_with("Failed to decode screenshot: "));
}

#[test]
fn post_data_from_first_entry() {
    assert_eq!(post_data_of(None), None);
    assert_eq!(post_data_of(Some("eD0x")), Some(b"x=1".to_vec()));
    assert_eq!(post_data_of(Some("not base64!")), None);
}

#[test]
fn fulfill_body_in_base64() {
    assert_eq!(fulfill_body(&None), None);
    assert_eq!(fulfill_body(&Some(b"hello".to_vec())), Some("aGVsbG8=".to_string()));
    assert_eq!(fulfill_body(&Some(vec![0xff, 0xfe])), Some("//4=".to_string()));
    assert_eq!(fulfill_body(&Some(Vec::new())), Some(String::new()));
}
