use vstd::prelude::*;
use crate::error::TurbosheetError;
use crate::text::{push_str, string_from_chars};

verus! {

/// An error a BiDi command returned: its code, message and, when given,
/// the stack trace.
pub struct BidiError {
    pub code: String,
    pub message: String,
    pub stacktrace: Option<String>,
}

/// Whether serde_json reads `raw` as a JSON value with an `id` key (an
/// object that has one), or the text of its parse error.
pub uninterp spec fn json_id_key(raw: Seq<char>) -> Result<bool, Seq<char>>;

/// `serde_json::from_str` into a `Value` (its error shown by `Display`),
/// then `get("id").is_some()`: the result is `json_id_key` of the text.
#[verifier::external_body]
fn has_id_key(raw: &str) -> (r: Result<bool, String>)
    ensures
        match r {
            Ok(b) => json_id_key(raw@) == Ok::<bool, Seq<char>>(b),
            Err(m) => json_id_key(raw@) == Err::<bool, Seq<char>>(m@),
        },
{
    match serde_json::from_str::<serde_json::Value>(raw) {
        Ok(v) => Ok(v.get("id").is_some()),
        Err(e) => Err(e.to_string()),
    }
}

/// What an incoming BiDi message is: the response to a command (it has an
/// `id`) or an event (it has none).
#[derive(PartialEq, Eq, Structural, Clone, Copy, Debug)]
pub enum BidiMessageKind {
    Command,
    Event,
}

/// Whether an incoming BiDi message is a command response or an event, or
/// an `Other` error `BiDi parse error: ` and serde_json's text where it is
/// no JSON.
pub fn bidi_message_kind(raw: &str) -> (r: Result<BidiMessageKind, TurbosheetError>)
    ensures
        match json_id_key(raw@) {
            Ok(true) => r == Ok::<BidiMessageKind, TurbosheetError>(BidiMessageKind::Command),
            Ok(false) => r == Ok::<BidiMessageKind, TurbosheetError>(BidiMessageKind::Event),
            Err(m) => r matches Err(TurbosheetError::Other(e)) && e@ == "BiDi parse error: "@ + m,
        },
{
    match has_id_key(raw) {
        Ok(true) => Ok(BidiMessageKind::Command),
        Ok(false) => Ok(BidiMessageKind::Event),
        Err(m) => {
            let mut out: Vec<char> = Vec::new();
            push_str(&mut out, "BiDi parse error: ");
            push_str(&mut out, m.as_str());
            Err(TurbosheetError::Other(string_from_chars(&out)))
        },
    }
}

} // verus!
