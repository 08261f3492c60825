use vstd::prelude::*;
use crate::text::is_lower_hex;

verus! {

/// Whether `s` has the hyphenated form of a UUID: 36 characters, `-` at
/// positions 8, 13, 18 and 23 and a lowercase hexadecimal digit elsewhere.
pub open spec fn is_hyphenated_uuid(s: Seq<char>) -> bool {
    &&& s.len() == 36
    &&& forall|i: int| 0 <= i < 36 ==> (#[trigger] s[i] == '-' <==> (i == 8 || i == 13 || i == 18 || i == 23))
    &&& forall|i: int| 0 <= i < 36 && i != 8 && i != 13 && i != 18 && i != 23 ==> is_lower_hex(#[trigger] s[i])
}

/// A fresh random identifier: `uuid::Uuid::new_v4()` written by its
/// `Display`, which is the hyphenated lowercase form. Only that form is
/// stated: the digits are random.
#[verifier::external_body]
pub(crate) fn new_uuid() -> (s: String)
    ensures
        is_hyphenated_uuid(s@),
{
    uuid::Uuid::new_v4().to_string()
}

} // verus!
