use vstd::prelude::*;
use crate::text::str_eq;

verus! {

/// The BiDi events the client understands.
#[derive(Debug, Clone, PartialEq, Eq)]
pub enum BidiEventMethod {
    NetworkBeforeRequestSent,
    NetworkResponseCompleted,
    NetworkFetchError,
    ScriptMessage,
    Unknown(String),
}

/// The event method named `s`, or `None` when `s` names none of the known
/// ones.
pub open spec fn known_method(s: Seq<char>) -> Option<BidiEventMethod> {
    if s == "network.beforeRequestSent"@ {
        Some(BidiEventMethod::NetworkBeforeRequestSent)
    } else if s == "network.responseCompleted"@ {
        Some(BidiEventMethod::NetworkResponseCompleted)
    } else if s == "network.fetchError"@ {
        Some(BidiEventMethod::NetworkFetchError)
    } else if s == "script.message"@ {
        Some(BidiEventMethod::ScriptMessage)
    } else {
        None
    }
}

impl BidiEventMethod {
    /// The method named `s`; any other name is kept as `Unknown`.
    pub fn from(s: &str) -> (r: Self)
        ensures
            match known_method(s@) {
                Some(m) => r == m,
                None => r matches BidiEventMethod::Unknown(o) && o@ == s@,
            },
    {
        if str_eq(s, "network.beforeRequestSent") {
            BidiEventMethod::NetworkBeforeRequestSent
        } else if str_eq(s, "network.responseCompleted") {
            BidiEventMethod::NetworkResponseCompleted
        } else if str_eq(s, "network.fetchError") {
            BidiEventMethod::NetworkFetchError
        } else if str_eq(s, "script.message") {
            BidiEventMethod::ScriptMessage
        } else {
            BidiEventMethod::Unknown(s.to_owned())
        }
    }
}

/// A message a page script sent.
pub struct ScriptMessage {
    pub message: String,
    pub realm: Option<String>,
}

} // verus!
