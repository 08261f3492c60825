use vstd::prelude::*;
use crate::text::{chars_eq, chars_of, all_ascii, ascii_lower_char, decimal_spec, digit_spec};

verus! {

/// The windows virtual key code of a special key, by its lowercase name
/// (`enter`, `tab`, `f1`…`f12`, modifiers, navigation keys).
pub open spec fn key_code_spec(k: Seq<char>) -> Option<i64> {
    if k == "enter"@ {
        Some(13i64)
    } else if k == "tab"@ {
        Some(9i64)
    } else if k == "escape"@ {
        Some(27i64)
    } else if k == "backspace"@ {
        Some(8i64)
    } else if k == "delete"@ {
        Some(46i64)
    } else if k == "home"@ {
        Some(36i64)
    } else if k == "end"@ {
        Some(35i64)
    } else if k == "pageup"@ {
        Some(33i64)
    } else if k == "pagedown"@ {
        Some(34i64)
    } else if k == "arrowup"@ {
        Some(38i64)
    } else if k == "arrowdown"@ {
        Some(40i64)
    } else if k == "arrowleft"@ {
        Some(37i64)
    } else if k == "arrowright"@ {
        Some(39i64)
    } else if k == "f1"@ {
        Some(112i64)
    } else if k == "f2"@ {
        Some(113i64)
    } else if k == "f3"@ {
        Some(114i64)
    } else if k == "f4"@ {
        Some(115i64)
    } else if k == "f5"@ {
        Some(116i64)
    } else if k == "f6"@ {
        Some(117i64)
    } else if k == "f7"@ {
        Some(118i64)
    } else if k == "f8"@ {
        Some(119i64)
    } else if k == "f9"@ {
        Some(120i64)
    } else if k == "f10"@ {
        Some(121i64)
    } else if k == "f11"@ {
        Some(122i64)
    } else if k == "f12"@ {
        Some(123i64)
    } else if k == "shift"@ {
        Some(16i64)
    } else if k == "control"@ {
        Some(17i64)
    } else if k == "alt"@ {
        Some(18i64)
    } else if k == "meta"@ {
        Some(91i64)
    } else if k == "capslock"@ {
        Some(20i64)
    } else if k == "insert"@ {
        Some(45i64)
    } else if k == "space"@ {
        Some(32i64)
    } else if k == "printscreen"@ {
        Some(44i64)
    } else if k == "scrolllock"@ {
        Some(145i64)
    } else if k == "pause"@ {
        Some(19i64)
    } else if k == "numlock"@ {
        Some(144i64)
    } else if k == "contextmenu"@ {
        Some(93i64)
    } else {
        None
    }
}

/// No two keys of the table share a code: a code names one key.
pub proof fn law_key_codes_distinct(k1: Seq<char>, k2: Seq<char>)
    requires
        key_code_spec(k1) is Some,
        key_code_spec(k1) == key_code_spec(k2),
    ensures
        k1 == k2,
{
}

/// The navigation keys have the consecutive Windows codes 33 to 40, in
/// the order page up, page down, end, home, left, up, right, down.
pub proof fn law_navigation_keys_consecutive(i: int)
    requires
        0 <= i < 8,
    ensures
        key_code_spec(seq!["pageup"@, "pagedown"@, "end"@, "home"@, "arrowleft"@, "arrowup"@, "arrowright"@, "arrowdown"@][i])
            == Some((33 + i) as i64),
{
    reveal_strlit("enter");
    reveal_strlit("tab");
    reveal_strlit("escape");
    reveal_strlit("backspace");
    reveal_strlit("delete");
    reveal_strlit("home");
    reveal_strlit("end");
    reveal_strlit("pageup");
    reveal_strlit("pagedown");
    reveal_strlit("arrowup");
    reveal_strlit("arrowdown");
    reveal_strlit("arrowleft");
    reveal_strlit("arrowright");
    reveal_strlit("f1");
    reveal_strlit("f2");
    reveal_strlit("f3");
    reveal_strlit("f4");
    reveal_strlit("f5");
    reveal_strlit("f6");
    reveal_strlit("f7");
    reveal_strlit("f8");
    reveal_strlit("f9");
    reveal_strlit("f10");
    reveal_strlit("f11");
    reveal_strlit("f12");
    reveal_strlit("shift");
    reveal_strlit("control");
    reveal_strlit("alt");
    reveal_strlit("meta");
    reveal_strlit("capslock");
    reveal_strlit("insert");
    reveal_strlit("space");
    reveal_strlit("printscreen");
    reveal_strlit("scrolllock");
    reveal_strlit("pause");
    reveal_strlit("numlock");
    reveal_strlit("contextmenu");
    let names = seq!["pageup"@, "pagedown"@, "end"@, "home"@, "arrowleft"@, "arrowup"@, "arrowright"@, "arrowdown"@];
    if i == 0 {
        assert(names[0] == "pageup"@);
        assert("pageup"@ =~= seq!['p', 'a', 'g', 'e', 'u', 'p']);
        assert(key_code_spec("pageup"@) == Some(33i64));
    } else if i == 1 {
        assert(names[1] == "pagedown"@);
        assert("pagedown"@ =~= seq!['p', 'a', 'g', 'e', 'd', 'o', 'w', 'n']);
        assert(key_code_spec("pagedown"@) == Some(34i64));
    } else if i == 2 {
        assert(names[2] == "end"@);
        assert("end"@ =~= seq!['e', 'n', 'd']);
        assert(key_code_spec("end"@) == Some(35i64));
    } else if i == 3 {
        assert(names[3] == "home"@);
        assert("home"@ =~= seq!['h', 'o', 'm', 'e']);
        assert(key_code_spec("home"@) == Some(36i64));
    } else if i == 4 {
        assert(names[4] == "arrowleft"@);
        assert("arrowleft"@ =~= seq!['a', 'r', 'r', 'o', 'w', 'l', 'e', 'f', 't']);
        assert(key_code_spec("arrowleft"@) == Some(37i64));
    } else if i == 5 {
        assert(names[5] == "arrowup"@);
        assert("arrowup"@ =~= seq!['a', 'r', 'r', 'o', 'w', 'u', 'p']);
        assert(key_code_spec("arrowup"@) == Some(38i64));
    } else if i == 6 {
        assert(names[6] == "arrowright"@);
        assert("arrowright"@ =~= seq!['a', 'r', 'r', 'o', 'w', 'r', 'i', 'g', 'h', 't']);
        assert(key_code_spec("arrowright"@) == Some(39i64));
    } else if i == 7 {
        assert(names[7] == "arrowdown"@);
        assert("arrowdown"@ =~= seq!['a', 'r', 'r', 'o', 'w', 'd', 'o', 'w', 'n']);
        assert(key_code_spec("arrowdown"@) == Some(40i64));
    }
}

/// The function key `fN` has code 111 + N, for N from 1 to 12.
pub proof fn law_function_key_codes(n: nat)
    requires
        1 <= n <= 12,
    ensures
        key_code_spec("f"@ + decimal_spec(n)) == Some((111 + n) as i64),
{
    reveal_strlit("f");
    reveal_strlit("enter");
    reveal_strlit("tab");
    reveal_strlit("escape");
    reveal_strlit("backspace");
    reveal_strlit("delete");
    reveal_strlit("home");
    reveal_strlit("end");
    reveal_strlit("pageup");
    reveal_strlit("pagedown");
    reveal_strlit("arrowup");
    reveal_strlit("arrowdown");
    reveal_strlit("arrowleft");
    reveal_strlit("arrowright");
    reveal_strlit("f1");
    reveal_strlit("f2");
    reveal_strlit("f3");
    reveal_strlit("f4");
    reveal_strlit("f5");
    reveal_strlit("f6");
    reveal_strlit("f7");
    reveal_strlit("f8");
    reveal_strlit("f9");
    reveal_strlit("f10");
    reveal_strlit("f11");
    reveal_strlit("f12");
    reveal_strlit("shift");
    reveal_strlit("control");
    reveal_strlit("alt");
    reveal_strlit("meta");
    reveal_strlit("capslock");
    reveal_strlit("insert");
    reveal_strlit("space");
    reveal_strlit("printscreen");
    reveal_strlit("scrolllock");
    reveal_strlit("pause");
    reveal_strlit("numlock");
    reveal_strlit("contextmenu");
    let k = "f"@ + decimal_spec(n);
    if n < 10 {
        assert(k =~= seq!['f', digit_spec(n as int)]);
    } else {
        assert(decimal_spec(n / 10) == seq![digit_spec(1)]);
        assert(k =~= seq!['f', digit_spec(1), digit_spec((n % 10) as int)]);
    }
    if n == 1 { assert(k =~= "f1"@); }
    else if n == 2 { assert(k =~= "f2"@); }
    else if n == 3 { assert(k =~= "f3"@); }
    else if n == 4 { assert(k =~= "f4"@); }
    else if n == 5 { assert(k =~= "f5"@); }
    else if n == 6 { assert(k =~= "f6"@); }
    else if n == 7 { assert(k =~= "f7"@); }
    else if n == 8 { assert(k =~= "f8"@); }
    else if n == 9 { assert(k =~= "f9"@); }
    else if n == 10 { assert(k =~= "f10"@); }
    else if n == 11 { assert(k =~= "f11"@); }
    else { assert(k =~= "f12"@); }
}

/// The lookup table of virtual key codes for special keys, keyed by
/// lowercase key name.
pub struct KeyCodeMap;

impl KeyCodeMap {
    pub fn new() -> (r: Self) {
        KeyCodeMap
    }

    /// The code of the key with exactly this name, if it is in the table.
    pub fn get(&self, key: &str) -> (r: Option<i64>)
        ensures
            r == key_code_spec(key@),
    {
        let k = chars_of(key);
        if chars_eq(&k, &chars_of("enter")) {
            Some(13i64)
        } else if chars_eq(&k, &chars_of("tab")) {
            Some(9i64)
        } else if chars_eq(&k, &chars_of("escape")) {
            Some(27i64)
        } else if chars_eq(&k, &chars_of("backspace")) {
            Some(8i64)
        } else if chars_eq(&k, &chars_of("delete")) {
            Some(46i64)
        } else if chars_eq(&k, &chars_of("home")) {
            Some(36i64)
        } else if chars_eq(&k, &chars_of("end")) {
            Some(35i64)
        } else if chars_eq(&k, &chars_of("pageup")) {
            Some(33i64)
        } else if chars_eq(&k, &chars_of("pagedown")) {
            Some(34i64)
        } else if chars_eq(&k, &chars_of("arrowup")) {
            Some(38i64)
        } else if chars_eq(&k, &chars_of("arrowdown")) {
            Some(40i64)
        } else if chars_eq(&k, &chars_of("arrowleft")) {
            Some(37i64)
        } else if chars_eq(&k, &chars_of("arrowright")) {
            Some(39i64)
        } else if chars_eq(&k, &chars_of("f1")) {
            Some(112i64)
        } else if chars_eq(&k, &chars_of("f2")) {
            Some(113i64)
        } else if chars_eq(&k, &chars_of("f3")) {
            Some(114i64)
        } else if chars_eq(&k, &chars_of("f4")) {
            Some(115i64)
        } else if chars_eq(&k, &chars_of("f5")) {
            Some(116i64)
        } else if chars_eq(&k, &chars_of("f6")) {
            Some(117i64)
        } else if chars_eq(&k, &chars_of("f7")) {
            Some(118i64)
        } else if chars_eq(&k, &chars_of("f8")) {
            Some(119i64)
        } else if chars_eq(&k, &chars_of("f9")) {
            Some(120i64)
        } else if chars_eq(&k, &chars_of("f10")) {
            Some(121i64)
        } else if chars_eq(&k, &chars_of("f11")) {
            Some(122i64)
        } else if chars_eq(&k, &chars_of("f12")) {
            Some(123i64)
        } else if chars_eq(&k, &chars_of("shift")) {
            Some(16i64)
        } else if chars_eq(&k, &chars_of("control")) {
            Some(17i64)
        } else if chars_eq(&k, &chars_of("alt")) {
            Some(18i64)
        } else if chars_eq(&k, &chars_of("meta")) {
            Some(91i64)
        } else if chars_eq(&k, &chars_of("capslock")) {
            Some(20i64)
        } else if chars_eq(&k, &chars_of("insert")) {
            Some(45i64)
        } else if chars_eq(&k, &chars_of("space")) {
            Some(32i64)
        } else if chars_eq(&k, &chars_of("printscreen")) {
            Some(44i64)
        } else if chars_eq(&k, &chars_of("scrolllock")) {
            Some(145i64)
        } else if chars_eq(&k, &chars_of("pause")) {
            Some(19i64)
        } else if chars_eq(&k, &chars_of("numlock")) {
            Some(144i64)
        } else if chars_eq(&k, &chars_of("contextmenu")) {
            Some(93i64)
        } else {
            None
        }
    }

    /// Whether the table has a key with exactly this name.
    pub fn contains_key(&self, key: &str) -> (r: bool)
        ensures
            r == key_code_spec(key@) is Some,
    {
        self.get(key).is_some()
    }
}

/// The lowercase form of a string, as `str::to_lowercase` maps it (full
/// Unicode case mapping).
pub uninterp spec fn lowercase_of(s: Seq<char>) -> Seq<char>;

/// `str::to_lowercase`: the result is `lowercase_of` the argument; on
/// ASCII text the Unicode lowercase mapping it documents maps `A`-`Z` to
/// `a`-`z` and keeps every other character.
#[verifier::external_body]
pub(crate) fn to_lowercase(s: &str) -> (r: String)
    ensures
        r@ == lowercase_of(s@),
        all_ascii(s@) ==> r@ == s@.map_values(|c: char| ascii_lower_char(c)),
{
    s.to_lowercase()
}

/// The code a key press sends for `key`, given its lowercase form: the
/// table's code for the lowercase name, else the code point of the key's
/// first character, else 0.
pub open spec fn press_code_spec(key: Seq<char>, lowered: Seq<char>) -> i64 {
    match key_code_spec(lowered) {
        Some(c) => c,
        None => if key.len() > 0 { key[0] as i64 } else { 0 },
    }
}

/// The code a key press sends for `key`, given its lowercase form `lowered`.
pub fn press_code_from(key: &str, lowered: &str) -> (r: i64)
    ensures
        r == press_code_spec(key@, lowered@),
{
    match KeyCodeMap.get(lowered) {
        Some(c) => c,
        None => {
            let k = chars_of(key);
            if k.len() > 0 {
                k[0] as i64
            } else {
                0
            }
        },
    }
}

/// The windows virtual key code sent when pressing `key`; for an ASCII
/// key name, the table is read in any case.
pub fn press_code(key: &str) -> (r: i64)
    ensures
        r == press_code_spec(key@, lowercase_of(key@)),
        all_ascii(key@) ==> r == press_code_spec(key@, key@.map_values(|c: char| ascii_lower_char(c))),
{
    let lowered = to_lowercase(key);
    press_code_from(key, lowered.as_str())
}

/// The code sent for one character typed in sequence, given the lowercase
/// form of that character: the table's code for it, else the character's
/// code point.
pub fn char_code_from(ch: char, lowered: &str) -> (r: i64)
    ensures
        r == match key_code_spec(lowered@) {
            Some(c) => c,
            None => ch as i64,
        },
{
    match KeyCodeMap.get(lowered) {
        Some(c) => c,
        None => ch as i64,
    }
}

} // verus!
