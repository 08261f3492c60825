use vstd::prelude::*;
use base64::Engine;
use crate::error::TurbosheetError;
use crate::text::{push_str, string_from_chars};

verus! {

/// What the standard base64 engine of the `base64` crate decodes `text`
/// to: the bytes, or the text of its decode error.
pub uninterp spec fn base64_decoded(text: Seq<char>) -> Result<Seq<u8>, Seq<char>>;

/// The view of a decode result: the bytes, or the error's text.
pub open spec fn decode_view(r: Result<Vec<u8>, String>) -> Result<Seq<u8>, Seq<char>> {
    match r {
        Ok(v) => Ok(v@),
        Err(m) => Err(m@),
    }
}

/// `base64::engine::general_purpose::STANDARD.decode`, its error shown by
/// its `Display` impl: the result is `base64_decoded` of the text.
#[verifier::external_body]
fn base64_decode(text: &str) -> (r: Result<Vec<u8>, String>)
    ensures
        decode_view(r) == base64_decoded(text@),
{
    match base64::engine::general_purpose::STANDARD.decode(text) {
        Ok(v) => Ok(v),
        Err(e) => Err(e.to_string()),
    }
}

/// The standard base64 alphabet: `A`-`Z`, `a`-`z`, `0`-`9`, `+`, `/`.
pub open spec fn base64_digit(n: int) -> char {
    if n < 26 {
        "ABCDEFGHIJKLMNOPQRSTUVWXYZ"@[n]
    } else if n < 52 {
        "abcdefghijklmnopqrstuvwxyz"@[n - 26]
    } else if n < 62 {
        "0123456789"@[n - 52]
    } else if n == 62 {
        '+'
    } else {
        '/'
    }
}

/// Bytes in standard base64 with padding: each three bytes become four
/// digits of six bits each, high bits first; a last one or two bytes
/// become two or three digits and `=` up to four.
pub open spec fn base64_encoded(b: Seq<u8>) -> Seq<char>
    decreases b.len(),
{
    if b.len() == 0 {
        Seq::empty()
    } else {
        let x = b[0] as int;
        let y = if b.len() > 1 { b[1] as int } else { 0 };
        let z = if b.len() > 2 { b[2] as int } else { 0 };
        if b.len() == 1 {
            seq![base64_digit(x / 4), base64_digit((x % 4) * 16), '=', '=']
        } else if b.len() == 2 {
            seq![base64_digit(x / 4), base64_digit((x % 4) * 16 + y / 16), base64_digit((y % 16) * 4), '=']
        } else {
            seq![
                base64_digit(x / 4),
                base64_digit((x % 4) * 16 + y / 16),
                base64_digit((y % 16) * 4 + z / 64),
                base64_digit(z % 64),
            ] + base64_encoded(b.skip(3))
        }
    }
}

/// `base64::engine::general_purpose::STANDARD.encode`: the bytes in
/// standard base64 with padding. It panics where the encoded length would
/// overflow `usize`, which the bound on the input leaves out.
#[verifier::external_body]
fn base64_encode(bytes: &[u8]) -> (r: String)
    requires
        bytes@.len() <= 3 * (usize::MAX / 4),
    ensures
        r@ == base64_encoded(bytes@),
{
    base64::engine::general_purpose::STANDARD.encode(bytes)
}

/// The error for a failed decode: `prefix`, then the decode error's text.
pub open spec fn decode_error_spec(prefix: Seq<char>, r: Result<Seq<u8>, Seq<char>>) -> Result<Seq<u8>, Seq<char>> {
    match r {
        Ok(b) => Ok(b),
        Err(m) => Err(prefix + m),
    }
}

/// The bytes or, for an `Other` error, its text.
pub open spec fn bytes_or_other(r: Result<Vec<u8>, TurbosheetError>) -> Option<Result<Seq<u8>, Seq<char>>> {
    match r {
        Ok(v) => Some(Ok(v@)),
        Err(TurbosheetError::Other(m)) => Some(Err(m@)),
        Err(_) => None,
    }
}

fn decode_or_other(b64: &str, prefix: &str) -> (r: Result<Vec<u8>, TurbosheetError>)
    ensures
        bytes_or_other(r) == Some(decode_error_spec(prefix@, base64_decoded(b64@))),
{
    match base64_decode(b64) {
        Ok(v) => Ok(v),
        Err(m) => {
            let mut out: Vec<char> = Vec::new();
            push_str(&mut out, prefix);
            push_str(&mut out, m.as_str());
            Err(TurbosheetError::Other(string_from_chars(&out)))
        },
    }
}

/// A screenshot that a WebDriver server sent in base64: its bytes, or an
/// `Other` error `Screenshot decode error: ` and the decode error.
pub fn decode_screenshot(b64: &str) -> (r: Result<Vec<u8>, TurbosheetError>)
    ensures
        bytes_or_other(r) == Some(decode_error_spec("Screenshot decode error: "@, base64_decoded(b64@))),
{
    decode_or_other(b64, "Screenshot decode error: ")
}

/// A page screenshot that the browser captured in base64: its bytes, or
/// an `Other` error `Failed to decode screenshot base64: ` and the decode
/// error.
pub fn decode_page_screenshot(b64: &str) -> (r: Result<Vec<u8>, TurbosheetError>)
    ensures
        bytes_or_other(r) == Some(decode_error_spec("Failed to decode screenshot base64: "@, base64_decoded(b64@))),
{
    decode_or_other(b64, "Failed to decode screenshot base64: ")
}

/// An element screenshot that the browser captured in base64: its bytes,
/// or an `Other` error `Failed to decode screenshot: ` and the decode
/// error.
pub fn decode_element_screenshot(b64: &str) -> (r: Result<Vec<u8>, TurbosheetError>)
    ensures
        bytes_or_other(r) == Some(decode_error_spec("Failed to decode screenshot: "@, base64_decoded(b64@))),
{
    decode_or_other(b64, "Failed to decode screenshot: ")
}

/// The body of a paused request, from the base64 bytes of its first post
/// data entry: none without an entry or where they do not decode.
pub fn post_data_of(first_entry: Option<&str>) -> (r: Option<Vec<u8>>)
    ensures
        match first_entry {
            None => r is None,
            Some(t) => match base64_decoded(t@) {
                Ok(b) => r matches Some(v) && v@ == b,
                Err(_) => r is None,
            },
        },
{
    match first_entry {
        None => None,
        Some(t) => match base64_decode(t) {
            Ok(v) => Some(v),
            Err(_) => None,
        },
    }
}

/// The body of a fulfilled request as the browser takes it: in base64.
pub fn fulfill_body(body: &Option<Vec<u8>>) -> (r: Option<String>)
    requires
        body matches Some(b) ==> b@.len() <= 3 * (usize::MAX / 4),
    ensures
        match body {
            None => r is None,
            Some(b) => r matches Some(s) && s@ == base64_encoded(b@),
        },
{
    match body {
        None => None,
        Some(b) => Some(base64_encode(b.as_slice())),
    }
}

} // verus!
