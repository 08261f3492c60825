use vstd::prelude::*;
use crate::text::{push_str, push_decimal, string_from_chars, decimal_spec};

verus! {

/// The errors of the library.
#[derive(Debug)]
pub enum TurbosheetError {
    LaunchFailed(String),
    NavigationFailed(String),
    Timeout(u64),
    ElementNotFound { message: String, selector: Option<String> },
    ElementNotVisible { message: String, selector: Option<String> },
    ElementNotUnique { selector: String, count: usize },
    AssertionFailed { expected: String, actual: String },
    Network(String),
    Protocol(String),
    Other(String),
}

/// The text an error is shown with.
pub open spec fn error_message_spec(e: TurbosheetError) -> Seq<char> {
    match e {
        TurbosheetError::LaunchFailed(s) => "Browser launch failed: "@ + s@,
        TurbosheetError::NavigationFailed(s) => "Navigation failed: "@ + s@,
        TurbosheetError::Timeout(ms) => "Timeout after "@ + decimal_spec(ms as nat) + "ms"@,
        TurbosheetError::ElementNotFound { message, .. } => "Element not found: "@ + message@,
        TurbosheetError::ElementNotVisible { message, .. } => "Element not visible: "@ + message@,
        TurbosheetError::ElementNotUnique { selector, count } => "Element not unique: "@ + selector@ + " (found "@
            + decimal_spec(count as nat) + ")"@,
        TurbosheetError::AssertionFailed { expected, actual } => "Assertion failed: expected "@ + expected@ + ", got "@
            + actual@,
        TurbosheetError::Network(s) => "Network error: "@ + s@,
        TurbosheetError::Protocol(s) => "Protocol error: "@ + s@,
        TurbosheetError::Other(s) => s@,
    }
}

impl TurbosheetError {
    /// The text the error is shown with (see `error_message_spec`).
    pub fn message(&self) -> (s: String)
        ensures
            s@ == error_message_spec(*self),
    {
        let mut out: Vec<char> = Vec::new();
        match self {
            TurbosheetError::LaunchFailed(s) => {
                push_str(&mut out, "Browser launch failed: ");
                push_str(&mut out, s.as_str());
            },
            TurbosheetError::NavigationFailed(s) => {
                push_str(&mut out, "Navigation failed: ");
                push_str(&mut out, s.as_str());
            },
            TurbosheetError::Timeout(ms) => {
                push_str(&mut out, "Timeout after ");
                push_decimal(&mut out, *ms);
                push_str(&mut out, "ms");
            },
            TurbosheetError::ElementNotFound { message, .. } => {
                push_str(&mut out, "Element not found: ");
                push_str(&mut out, message.as_str());
            },
            TurbosheetError::ElementNotVisible { message, .. } => {
                push_str(&mut out, "Element not visible: ");
                push_str(&mut out, message.as_str());
            },
            TurbosheetError::ElementNotUnique { selector, count } => {
                push_str(&mut out, "Element not unique: ");
                push_str(&mut out, selector.as_str());
                push_str(&mut out, " (found ");
                push_decimal(&mut out, *count as u64);
                push_str(&mut out, ")");
            },
            TurbosheetError::AssertionFailed { expected, actual } => {
                push_str(&mut out, "Assertion failed: expected ");
                push_str(&mut out, expected.as_str());
                push_str(&mut out, ", got ");
                push_str(&mut out, actual.as_str());
            },
            TurbosheetError::Network(s) => {
                push_str(&mut out, "Network error: ");
                push_str(&mut out, s.as_str());
            },
            TurbosheetError::Protocol(s) => {
                push_str(&mut out, "Protocol error: ");
                push_str(&mut out, s.as_str());
            },
            TurbosheetError::Other(s) => {
                push_str(&mut out, s.as_str());
            },
        }
        assert(out@ =~= error_message_spec(*self));
        string_from_chars(&out)
    }
}

} // verus!
