use vstd::prelude::*;
use crate::assertions::engine::AssertionEngine;
use crate::json::{json_string, json_string_of};
use crate::network::pattern::{regex_match, regex_compiles, regex_text_matches};
use crate::text::{
    chars_of, push_str, push_decimal, string_from_chars, str_eq, trim_end_spec, trim_end_chars, contains_spec,
    str_contains, decimal_spec, parse_unsigned, parse_unsigned_spec,
};

verus! {

/// A regular expression as the JavaScript API passes it.
pub struct RegExp {
    pub pattern: String,
    pub flags: Option<String>,
}

/// How long a matcher retries and how often, and a message to add to its
/// failure.
pub struct MatcherConfig {
    pub timeout: Option<u32>,
    pub polling_interval: Option<u32>,
    pub message: Option<String>,
}

/// An expected text: given exactly, or as a regular expression.
pub enum TextOrRegExp {
    Text(String),
    Regex(RegExp),
}

/// Whether `glob::Pattern::new` accepts `pattern`.
pub uninterp spec fn glob_compiles(pattern: Seq<char>) -> bool;

/// What `glob::Pattern::matches` answers for `text` on `pattern` compiled
/// by `glob::Pattern::new`.
pub uninterp spec fn glob_text_matches(pattern: Seq<char>, text: Seq<char>) -> bool;

/// `glob::Pattern::new` followed by `glob::Pattern::matches` on `text`;
/// `None` when the pattern does not compile.
#[verifier::external_body]
fn glob_match(pattern: &str, text: &str) -> (r: Option<bool>)
    ensures
        r == (if glob_compiles(pattern@) { Some(glob_text_matches(pattern@, text@)) } else { None }),
{
    match glob::Pattern::new(pattern) {
        Ok(p) => Some(p.matches(text)),
        Err(_) => None,
    }
}

/// The failure message of a matcher: the expected and actual values, the
/// selector and the caller's message when there are any, one per line,
/// trailing whitespace removed.
pub open spec fn assertion_message_spec(expected: Seq<char>, actual: Seq<char>, selector: Option<Seq<char>>, custom: Option<Seq<char>>) -> Seq<char> {
    trim_end_spec(
        "Expected: "@ + expected + "\n"@ + "Actual:   "@ + actual + "\n"@ + match selector {
            Some(s) => "Selector: "@ + s + "\n"@,
            None => Seq::empty(),
        } + match custom {
            Some(m) => m + "\n"@,
            None => Seq::empty(),
        },
    )
}

/// The text of an optional string.
pub open spec fn opt_str(o: Option<&str>) -> Option<Seq<char>> {
    match o {
        Some(s) => Some(s@),
        None => None,
    }
}

/// The failure message of a matcher (see `assertion_message_spec`).
pub fn format_assertion_error(expected: &str, actual: &str, selector: Option<&str>, custom_message: Option<&str>) -> (r: String)
    ensures
        r@ == assertion_message_spec(expected@, actual@, opt_str(selector), opt_str(custom_message)),
{
    let mut msg: Vec<char> = Vec::new();
    push_str(&mut msg, "Expected: ");
    push_str(&mut msg, expected);
    push_str(&mut msg, "\n");
    push_str(&mut msg, "Actual:   ");
    push_str(&mut msg, actual);
    push_str(&mut msg, "\n");
    match selector {
        Some(s) => {
            push_str(&mut msg, "Selector: ");
            push_str(&mut msg, s);
            push_str(&mut msg, "\n");
        },
        None => {},
    }
    match custom_message {
        Some(m) => {
            push_str(&mut msg, m);
            push_str(&mut msg, "\n");
        },
        None => {},
    }
    assert(msg@ =~= "Expected: "@ + expected@ + "\n"@ + "Actual:   "@ + actual@ + "\n"@ + match opt_str(selector) {
        Some(s) => "Selector: "@ + s + "\n"@,
        None => Seq::empty(),
    } + match opt_str(custom_message) {
        Some(m) => m + "\n"@,
        None => Seq::empty(),
    });
    let t = trim_end_chars(&msg);
    string_from_chars(&t)
}

/// The retry settings a matcher runs with: the defaults, with the timeout
/// and the first pause taken from the configuration where it gives them.
pub fn engine_for(config: &Option<MatcherConfig>) -> (e: AssertionEngine)
    ensures
        e.timeout_ms == match config {
            Some(c) => match c.timeout {
                Some(t) => t as u64,
                None => 30000u64,
            },
            None => 30000u64,
        },
        e.initial_interval_ms == match config {
            Some(c) => match c.polling_interval {
                Some(p) => p as u64,
                None => 100u64,
            },
            None => 100u64,
        },
        e.max_interval_ms == 500,
{
    let mut engine = AssertionEngine { timeout_ms: 30000, initial_interval_ms: 100, max_interval_ms: 500 };
    match config {
        Some(cfg) => {
            match cfg.timeout {
                Some(t) => {
                    engine.timeout_ms = t as u64;
                },
                None => {},
            }
            match cfg.polling_interval {
                Some(p) => {
                    engine.initial_interval_ms = p as u64;
                },
                None => {},
            }
        },
        None => {},
    }
    engine
}

/// The matchers that test one property of an element.
#[derive(PartialEq, Eq, Structural, Clone, Copy, Debug)]
pub enum StateMatcher {
    Visible,
    Hidden,
    Enabled,
    Disabled,
    Attached,
    InViewport,
    Focused,
    Checked,
    Editable,
    Empty,
}

/// The words for an element that has the property and one that has not.
pub open spec fn state_words(k: StateMatcher) -> (Seq<char>, Seq<char>) {
    match k {
        StateMatcher::Visible => ("visible"@, "hidden"@),
        StateMatcher::Hidden => ("hidden"@, "visible"@),
        StateMatcher::Enabled => ("enabled"@, "disabled"@),
        StateMatcher::Disabled => ("disabled"@, "enabled"@),
        StateMatcher::Attached => ("attached"@, "not attached"@),
        StateMatcher::InViewport => ("in viewport"@, "not in viewport"@),
        StateMatcher::Focused => ("focused"@, "not focused"@),
        StateMatcher::Checked => ("checked"@, "not checked"@),
        StateMatcher::Editable => ("editable"@, "not editable"@),
        StateMatcher::Empty => ("empty"@, "not empty"@),
    }
}

/// The outcome of a property matcher: it passes when the element has the
/// property (or, negated, has it not); else it fails with the expected and
/// actual words and the selector.
pub open spec fn state_verdict_spec(k: StateMatcher, state: bool, negated: bool, selector: Seq<char>, custom: Option<Seq<char>>) -> Result<(), Seq<char>> {
    if state != negated {
        Ok(())
    } else {
        Err(assertion_message_spec(
            if negated { state_words(k).1 } else { state_words(k).0 },
            if state { state_words(k).0 } else { state_words(k).1 },
            Some(selector),
            custom,
        ))
    }
}

/// The text of a verdict's failure.
pub open spec fn verdict_view(r: Result<(), String>) -> Result<(), Seq<char>> {
    match r {
        Ok(()) => Ok(()),
        Err(e) => Err(e@),
    }
}

impl StateMatcher {
    fn words(&self) -> (r: (&'static str, &'static str))
        ensures
            (r.0@, r.1@) == state_words(*self),
    {
        match self {
            StateMatcher::Visible => ("visible", "hidden"),
            StateMatcher::Hidden => ("hidden", "visible"),
            StateMatcher::Enabled => ("enabled", "disabled"),
            StateMatcher::Disabled => ("disabled", "enabled"),
            StateMatcher::Attached => ("attached", "not attached"),
            StateMatcher::InViewport => ("in viewport", "not in viewport"),
            StateMatcher::Focused => ("focused", "not focused"),
            StateMatcher::Checked => ("checked", "not checked"),
            StateMatcher::Editable => ("editable", "not editable"),
            StateMatcher::Empty => ("empty", "not empty"),
        }
    }

    /// The outcome when the element has the property exactly when `state`
    /// (see `state_verdict_spec`).
    pub fn verdict(&self, state: bool, negated: bool, selector: &str, custom_message: Option<&str>) -> (r: Result<(), String>)
        ensures
            verdict_view(r) == state_verdict_spec(*self, state, negated, selector@, opt_str(custom_message)),
    {
        if state != negated {
            Ok(())
        } else {
            let (pos, neg) = self.words();
            let expected = if negated { neg } else { pos };
            let actual = if state { pos } else { neg };
            Err(format_assertion_error(expected, actual, Some(selector), custom_message))
        }
    }
}

/// Whether a page script answered `true`.
pub fn script_says_true(result: &str) -> (r: bool)
    ensures
        r == (result@ == "true"@),
{
    str_eq(result, "true")
}

/// The script that tests a property of the element `selector_json` (a
/// JSON string) selects; visibility is asked of the engine, not by script.
pub open spec fn state_script_spec(k: StateMatcher, selector_json: Seq<char>) -> Option<Seq<char>> {
    let head = "(function() { var el = document.querySelector("@ + selector_json;
    match k {
        StateMatcher::Visible | StateMatcher::Hidden => None,
        StateMatcher::Enabled => Some(head + "); if (!el) return false; return !el.disabled && !el.getAttribute('aria-disabled'); })()"@),
        StateMatcher::Disabled => Some(head + "); if (!el) return false; return el.disabled || el.getAttribute('aria-disabled') === 'true'; })()"@),
        StateMatcher::Attached => Some(head + "); return el !== null && el !== undefined; })()"@),
        StateMatcher::InViewport => Some(head + "); if (!el) return false; var rect = el.getBoundingClientRect(); return rect.top >= 0 && rect.left >= 0 && rect.bottom <= window.innerHeight && rect.right <= window.innerWidth; })()"@),
        StateMatcher::Focused => Some(head + "); if (!el) return false; return document.activeElement === el; })()"@),
        StateMatcher::Checked => Some(head + "); if (!el) return false; return el.checked === true; })()"@),
        StateMatcher::Editable => Some(head + "); if (!el) return false; return !el.disabled && !el.readOnly && el.getAttribute('aria-readonly') !== 'true'; })()"@),
        StateMatcher::Empty => Some(head + "); if (!el) return true; return el.innerText.trim() === '' && el.children.length === 0; })()"@),
    }
}

impl StateMatcher {
    /// The script for this property and `selector` (see
    /// `state_script_spec`), the selector written as a JSON string.
    pub fn script(&self, selector: &str) -> (r: Option<String>)
        ensures
            match r {
                Some(s) => state_script_spec(*self, json_string_of(selector@)) == Some(s@),
                None => state_script_spec(*self, json_string_of(selector@)).is_none(),
            },
    {
        let tail: &str = match self {
            StateMatcher::Visible | StateMatcher::Hidden => {
                return None;
            },
            StateMatcher::Enabled => "); if (!el) return false; return !el.disabled && !el.getAttribute('aria-disabled'); })()",
            StateMatcher::Disabled => "); if (!el) return false; return el.disabled || el.getAttribute('aria-disabled') === 'true'; })()",
            StateMatcher::Attached => "); return el !== null && el !== undefined; })()",
            StateMatcher::InViewport => "); if (!el) return false; var rect = el.getBoundingClientRect(); return rect.top >= 0 && rect.left >= 0 && rect.bottom <= window.innerHeight && rect.right <= window.innerWidth; })()",
            StateMatcher::Focused => "); if (!el) return false; return document.activeElement === el; })()",
            StateMatcher::Checked => "); if (!el) return false; return el.checked === true; })()",
            StateMatcher::Editable => "); if (!el) return false; return !el.disabled && !el.readOnly && el.getAttribute('aria-readonly') !== 'true'; })()",
            StateMatcher::Empty => "); if (!el) return true; return el.innerText.trim() === '' && el.children.length === 0; })()",
        };
        let sel = json_string(selector);
        let mut out: Vec<char> = Vec::new();
        push_str(&mut out, "(function() { var el = document.querySelector(");
        push_str(&mut out, sel.as_str());
        push_str(&mut out, tail);
        Some(string_from_chars(&out))
    }
}


/// The matchers that compare a text of the page with an expectation.
#[derive(PartialEq, Eq, Structural, Clone, Copy, Debug)]
pub enum ValueMatcher {
    /// The element's text equals (or matches) the expectation.
    Text,
    /// The element's text contains (or matches) the expectation.
    ContainText,
    /// The input's value equals (or matches) the expectation.
    Value,
    /// The page title equals (or matches) the expectation.
    Title,
    /// The page URL equals the expectation, matches it as a glob when it
    /// holds `*` or `?`, or matches it as a regular expression.
    Url,
}

/// The text an expectation is shown by: the text, or the pattern.
pub open spec fn expectation_text(e: TextOrRegExp) -> Seq<char> {
    match e {
        TextOrRegExp::Text(s) => s@,
        TextOrRegExp::Regex(r) => r.pattern@,
    }
}

/// Whether `pattern` compiles as a regular expression and `text` matches
/// it.
pub open spec fn regex_accepts(pattern: Seq<char>, text: Seq<char>) -> bool {
    regex_compiles(pattern) && regex_text_matches(pattern, text)
}

/// Whether `actual` meets the expectation of a text comparison: a
/// regular expression must compile and match; a text must be contained
/// for `ContainText`, must compile as a glob and match for a URL that
/// holds `*` or `?`, and must be equal otherwise.
pub open spec fn value_match_spec(k: ValueMatcher, e: TextOrRegExp, actual: Seq<char>) -> bool {
    match e {
        TextOrRegExp::Text(s) => if k == ValueMatcher::ContainText {
            contains_spec(actual, s@)
        } else if k == ValueMatcher::Url && (contains_spec(s@, "*"@) || contains_spec(s@, "?"@)) {
            glob_compiles(s@) && glob_text_matches(s@, actual)
        } else {
            actual == s@
        },
        TextOrRegExp::Regex(re) => regex_accepts(re.pattern@, actual),
    }
}

/// The expected value shown when a comparison fails.
pub open spec fn value_expected_text(k: ValueMatcher, v: Seq<char>, negated: bool) -> Seq<char> {
    match k {
        ValueMatcher::Text => if negated { "not "@ + v } else { v },
        ValueMatcher::ContainText => if negated { "not to contain "@ + v } else { "to contain "@ + v },
        ValueMatcher::Value | ValueMatcher::Title => if negated { "not '"@ + v + "'"@ } else { v },
        ValueMatcher::Url => if negated { "not matching '"@ + v + "'"@ } else { "matching '"@ + v + "'"@ },
    }
}

/// The outcome of a comparison whose match was `matched`: it passes when
/// it matched (or, negated, did not); else it fails with the expectation,
/// the actual text and, for element matchers, the selector.
pub open spec fn value_verdict_spec(
    k: ValueMatcher,
    e: TextOrRegExp,
    actual: Seq<char>,
    matched: bool,
    negated: bool,
    selector: Seq<char>,
    custom: Option<Seq<char>>,
) -> Result<(), Seq<char>> {
    if matched != negated {
        Ok(())
    } else {
        Err(assertion_message_spec(
            value_expected_text(k, expectation_text(e), negated),
            actual,
            if k == ValueMatcher::Title || k == ValueMatcher::Url { None } else { Some(selector) },
            custom,
        ))
    }
}

/// Whether `text` matches the regular expression `pattern`; an expression
/// that does not compile matches nothing.
pub fn regex_matches(pattern: &str, text: &str) -> (r: bool)
    ensures
        r == regex_accepts(pattern@, text@),
{
    match regex_match(pattern, text) {
        Some(b) => b,
        None => false,
    }
}

impl ValueMatcher {
    /// Whether `actual` meets the expectation (see `value_match_spec`).
    pub fn matches(&self, expected: &TextOrRegExp, actual: &str) -> (r: bool)
        ensures
            r == value_match_spec(*self, *expected, actual@),
    {
        match expected {
            TextOrRegExp::Text(s) => {
                if *self == ValueMatcher::ContainText {
                    str_contains(actual, s.as_str())
                } else if *self == ValueMatcher::Url && (str_contains(s.as_str(), "*") || str_contains(s.as_str(), "?")) {
                    match glob_match(s.as_str(), actual) {
                        Some(b) => b,
                        None => false,
                    }
                } else {
                    str_eq(actual, s.as_str())
                }
            },
            TextOrRegExp::Regex(re) => regex_matches(re.pattern.as_str(), actual),
        }
    }

    /// The outcome for a given match (see `value_verdict_spec`).
    pub fn verdict_for(
        &self,
        expected: &TextOrRegExp,
        actual: &str,
        matched: bool,
        negated: bool,
        selector: &str,
        custom_message: Option<&str>,
    ) -> (r: Result<(), String>)
        ensures
            verdict_view(r) == value_verdict_spec(*self, *expected, actual@, matched, negated, selector@, opt_str(custom_message)),
    {
        if matched != negated {
            return Ok(());
        }
        let v: &str = match expected {
            TextOrRegExp::Text(s) => s.as_str(),
            TextOrRegExp::Regex(re) => re.pattern.as_str(),
        };
        let mut e: Vec<char> = Vec::new();
        match self {
            ValueMatcher::Text => {
                if negated {
                    push_str(&mut e, "not ");
                }
                push_str(&mut e, v);
            },
            ValueMatcher::ContainText => {
                if negated {
                    push_str(&mut e, "not to contain ");
                } else {
                    push_str(&mut e, "to contain ");
                }
                push_str(&mut e, v);
            },
            ValueMatcher::Value | ValueMatcher::Title => {
                if negated {
                    push_str(&mut e, "not '");
                    push_str(&mut e, v);
                    push_str(&mut e, "'");
                } else {
                    push_str(&mut e, v);
                }
            },
            ValueMatcher::Url => {
                if negated {
                    push_str(&mut e, "not matching '");
                } else {
                    push_str(&mut e, "matching '");
                }
                push_str(&mut e, v);
                push_str(&mut e, "'");
            },
        }
        assert(e@ =~= value_expected_text(*self, expectation_text(*expected), negated));
        let es = string_from_chars(&e);
        let sel: Option<&str> = if *self == ValueMatcher::Title || *self == ValueMatcher::Url { None } else { Some(selector) };
        Err(format_assertion_error(es.as_str(), actual, sel, custom_message))
    }

    /// The outcome of the comparison of `actual` with the expectation: the
    /// match decided by `matches`, the outcome by `verdict_for`.
    pub fn verdict(
        &self,
        expected: &TextOrRegExp,
        actual: &str,
        negated: bool,
        selector: &str,
        custom_message: Option<&str>,
    ) -> (r: Result<(), String>)
        ensures
            verdict_view(r) == value_verdict_spec(
                *self,
                *expected,
                actual@,
                value_match_spec(*self, *expected, actual@),
                negated,
                selector@,
                opt_str(custom_message),
            ),
    {
        let m = self.matches(expected, actual);
        self.verdict_for(expected, actual, m, negated, selector, custom_message)
    }
}

/// Whether an attribute read back from the page is missing: empty, or
/// the text `null`.
pub open spec fn attribute_missing(actual: Seq<char>) -> bool {
    actual.len() == 0 || actual == "null"@
}

/// The expected value shown when an attribute matcher fails.
pub open spec fn attribute_expected_text(name: Seq<char>, e: Option<TextOrRegExp>, negated: bool) -> Seq<char> {
    match e {
        None => if negated {
            "not to have attribute '"@ + name + "'"@
        } else {
            "to have attribute '"@ + name + "'"@
        },
        Some(TextOrRegExp::Text(s)) => if negated {
            "attribute '"@ + name + "' not to be '"@ + s@ + "'"@
        } else {
            "attribute '"@ + name + "' to be '"@ + s@ + "'"@
        },
        Some(TextOrRegExp::Regex(r)) => if negated {
            "attribute '"@ + name + "' not to match '"@ + r.pattern@ + "'"@
        } else {
            "attribute '"@ + name + "' to match '"@ + r.pattern@ + "'"@
        },
    }
}

/// Whether an attribute meets its expectation: a missing attribute never
/// does; without an expected value any present one does; an expected text
/// must be equal; a regular expression must compile and match.
pub open spec fn attribute_match_spec(e: Option<TextOrRegExp>, actual: Seq<char>) -> bool {
    if attribute_missing(actual) {
        false
    } else {
        match e {
            None => true,
            Some(TextOrRegExp::Text(s)) => actual == s@,
            Some(TextOrRegExp::Regex(re)) => regex_accepts(re.pattern@, actual),
        }
    }
}

/// The outcome of an attribute matcher whose match was `matched`.
pub open spec fn attribute_verdict_spec(
    name: Seq<char>,
    e: Option<TextOrRegExp>,
    actual: Seq<char>,
    matched: bool,
    negated: bool,
    selector: Seq<char>,
    custom: Option<Seq<char>>,
) -> Result<(), Seq<char>> {
    if matched != negated {
        Ok(())
    } else {
        Err(assertion_message_spec(
            attribute_expected_text(name, e, negated),
            if attribute_missing(actual) { "missing"@ } else { actual },
            Some(selector),
            custom,
        ))
    }
}

/// The script that reads attribute `name_json` of the element
/// `selector_json` selects (both JSON strings), `null` without element.
pub open spec fn attribute_script_spec(selector_json: Seq<char>, name_json: Seq<char>) -> Seq<char> {
    "(function() { var el = document.querySelector("@ + selector_json + "); if (!el) return null; return el.getAttribute("@
        + name_json + "); })()"@
}

/// The script that reads the attribute `name` of the element `selector`
/// selects (see `attribute_script_spec`).
pub fn attribute_script(selector: &str, name: &str) -> (r: String)
    ensures
        r@ == attribute_script_spec(json_string_of(selector@), json_string_of(name@)),
{
    let sel = json_string(selector);
    let attr = json_string(name);
    let mut out: Vec<char> = Vec::new();
    push_str(&mut out, "(function() { var el = document.querySelector(");
    push_str(&mut out, sel.as_str());
    push_str(&mut out, "); if (!el) return null; return el.getAttribute(");
    push_str(&mut out, attr.as_str());
    push_str(&mut out, "); })()");
    string_from_chars(&out)
}

/// Whether the attribute read back meets the expectation (see
/// `attribute_match_spec`).
pub fn attribute_matches(expected: &Option<TextOrRegExp>, actual: &str) -> (r: bool)
    ensures
        r == attribute_match_spec(*expected, actual@),
{
    if actual.is_empty() || str_eq(actual, "null") {
        proof {
            reveal_strlit("null");
        }
        return false;
    }
    proof {
        reveal_strlit("null");
    }
    match expected {
        None => true,
        Some(TextOrRegExp::Text(s)) => str_eq(actual, s.as_str()),
        Some(TextOrRegExp::Regex(re)) => regex_matches(re.pattern.as_str(), actual),
    }
}

/// The outcome of an attribute matcher for a given match (see
/// `attribute_verdict_spec`).
pub fn attribute_verdict_for(
    name: &str,
    expected: &Option<TextOrRegExp>,
    actual: &str,
    matched: bool,
    negated: bool,
    selector: &str,
    custom_message: Option<&str>,
) -> (r: Result<(), String>)
    ensures
        verdict_view(r) == attribute_verdict_spec(name@, *expected, actual@, matched, negated, selector@, opt_str(custom_message)),
{
    if matched != negated {
        return Ok(());
    }
    let mut e: Vec<char> = Vec::new();
    match expected {
        None => {
            if negated {
                push_str(&mut e, "not to have attribute '");
            } else {
                push_str(&mut e, "to have attribute '");
            }
            push_str(&mut e, name);
            push_str(&mut e, "'");
        },
        Some(TextOrRegExp::Text(s)) => {
            push_str(&mut e, "attribute '");
            push_str(&mut e, name);
            if negated {
                push_str(&mut e, "' not to be '");
            } else {
                push_str(&mut e, "' to be '");
            }
            push_str(&mut e, s.as_str());
            push_str(&mut e, "'");
        },
        Some(TextOrRegExp::Regex(re)) => {
            push_str(&mut e, "attribute '");
            push_str(&mut e, name);
            if negated {
                push_str(&mut e, "' not to match '");
            } else {
                push_str(&mut e, "' to match '");
            }
            push_str(&mut e, re.pattern.as_str());
            push_str(&mut e, "'");
        },
    }
    assert(e@ =~= attribute_expected_text(name@, *expected, negated));
    let es = string_from_chars(&e);
    let missing = actual.is_empty() || str_eq(actual, "null");
    let shown: &str = if missing { "missing" } else { actual };
    Err(format_assertion_error(es.as_str(), shown, Some(selector), custom_message))
}

/// The outcome of an attribute matcher on the value read back: the match
/// decided by `attribute_matches`, the outcome by `attribute_verdict_for`.
pub fn attribute_verdict(
    name: &str,
    expected: &Option<TextOrRegExp>,
    actual: &str,
    negated: bool,
    selector: &str,
    custom_message: Option<&str>,
) -> (r: Result<(), String>)
    ensures
        verdict_view(r) == attribute_verdict_spec(
            name@,
            *expected,
            actual@,
            attribute_match_spec(*expected, actual@),
            negated,
            selector@,
            opt_str(custom_message),
        ),
{
    let m = attribute_matches(expected, actual);
    attribute_verdict_for(name, expected, actual, m, negated, selector, custom_message)
}

/// The script that reads the value of the input `selector_json` selects,
/// empty without element or value.
pub open spec fn value_script_spec(selector_json: Seq<char>) -> Seq<char> {
    "(function() { var el = document.querySelector("@ + selector_json + "); if (!el) return ''; return el.value || ''; })()"@
}

/// See `value_script_spec`.
pub fn value_script(selector: &str) -> (r: String)
    ensures
        r@ == value_script_spec(json_string_of(selector@)),
{
    let sel = json_string(selector);
    let mut out: Vec<char> = Vec::new();
    push_str(&mut out, "(function() { var el = document.querySelector(");
    push_str(&mut out, sel.as_str());
    push_str(&mut out, "); if (!el) return ''; return el.value || ''; })()");
    string_from_chars(&out)
}

/// The script that counts the elements `selector_json` selects.
pub open spec fn count_script_spec(selector_json: Seq<char>) -> Seq<char> {
    "(function() { return document.querySelectorAll("@ + selector_json + ").length; })()"@
}

/// See `count_script_spec`.
pub fn count_script(selector: &str) -> (r: String)
    ensures
        r@ == count_script_spec(json_string_of(selector@)),
{
    let sel = json_string(selector);
    let mut out: Vec<char> = Vec::new();
    push_str(&mut out, "(function() { return document.querySelectorAll(");
    push_str(&mut out, sel.as_str());
    push_str(&mut out, ").length; })()");
    string_from_chars(&out)
}

/// The count a script answered: its text read as a `u32`, or 0 when it
/// does not read as one.
pub open spec fn count_of_result(result: Seq<char>) -> nat {
    match parse_unsigned_spec(result, 4294967295) {
        Some(n) => n,
        None => 0,
    }
}

/// The outcome of a count matcher: it passes when the count is the
/// expected one (or, negated, is not); else it fails with both counts and
/// the selector.
pub open spec fn count_verdict_spec(expected: u32, actual: nat, negated: bool, selector: Seq<char>, custom: Option<Seq<char>>) -> Result<(), Seq<char>> {
    if (actual == expected) != negated {
        Ok(())
    } else {
        Err(assertion_message_spec(
            if negated { "not "@ + decimal_spec(expected as nat) } else { decimal_spec(expected as nat) },
            decimal_spec(actual),
            Some(selector),
            custom,
        ))
    }
}

/// The outcome of a count matcher on the script's answer (see
/// `count_of_result` and `count_verdict_spec`).
pub fn count_verdict(expected: u32, result: &str, negated: bool, selector: &str, custom_message: Option<&str>) -> (r: Result<(), String>)
    ensures
        verdict_view(r) == count_verdict_spec(expected, count_of_result(result@), negated, selector@, opt_str(custom_message)),
{
    let v = chars_of(result);
    let actual: u32 = match parse_unsigned(&v, 4294967295) {
        Some(n) => n,
        None => 0,
    };
    if (actual == expected) != negated {
        return Ok(());
    }
    let mut e: Vec<char> = Vec::new();
    if negated {
        push_str(&mut e, "not ");
    }
    push_decimal(&mut e, expected as u64);
    let mut a: Vec<char> = Vec::new();
    push_decimal(&mut a, actual as u64);
    let es = string_from_chars(&e);
    let as_ = string_from_chars(&a);
    Err(format_assertion_error(es.as_str(), as_.as_str(), Some(selector), custom_message))
}

/// The script that tests whether the element `selector_json` selects has
/// the class `class_json`.
pub open spec fn class_script_spec(selector_json: Seq<char>, class_json: Seq<char>) -> Seq<char> {
    "(function() { var el = document.querySelector("@ + selector_json
        + "); if (!el) return false; return el.classList.contains("@ + class_json + "); })()"@
}

/// See `class_script_spec`.
pub fn class_script(selector: &str, class_name: &str) -> (r: String)
    ensures
        r@ == class_script_spec(json_string_of(selector@), json_string_of(class_name@)),
{
    let sel = json_string(selector);
    let cls = json_string(class_name);
    let mut out: Vec<char> = Vec::new();
    push_str(&mut out, "(function() { var el = document.querySelector(");
    push_str(&mut out, sel.as_str());
    push_str(&mut out, "); if (!el) return false; return el.classList.contains(");
    push_str(&mut out, cls.as_str());
    push_str(&mut out, "); })()");
    string_from_chars(&out)
}

/// The outcome of a class matcher: it passes when the element has the
/// class (or, negated, has it not); else it fails with the class and
/// whether it is present.
pub open spec fn class_verdict_spec(class_name: Seq<char>, has_class: bool, negated: bool, selector: Seq<char>, custom: Option<Seq<char>>) -> Result<(), Seq<char>> {
    if has_class != negated {
        Ok(())
    } else {
        Err(assertion_message_spec(
            if negated { "not '"@ + class_name + "'"@ } else { "'"@ + class_name + "'"@ },
            if has_class { "present"@ } else { "absent"@ },
            Some(selector),
            custom,
        ))
    }
}

/// See `class_verdict_spec`.
pub fn class_verdict(class_name: &str, has_class: bool, negated: bool, selector: &str, custom_message: Option<&str>) -> (r: Result<(), String>)
    ensures
        verdict_view(r) == class_verdict_spec(class_name@, has_class, negated, selector@, opt_str(custom_message)),
{
    if has_class != negated {
        return Ok(());
    }
    let mut e: Vec<char> = Vec::new();
    if negated {
        push_str(&mut e, "not '");
    } else {
        push_str(&mut e, "'");
    }
    push_str(&mut e, class_name);
    push_str(&mut e, "'");
    let es = string_from_chars(&e);
    let shown: &str = if has_class { "present" } else { "absent" };
    Err(format_assertion_error(es.as_str(), shown, Some(selector), custom_message))
}

/// The script that reads the computed style `property_json` of the element
/// `selector_json` selects, empty without element or value.
pub open spec fn css_script_spec(selector_json: Seq<char>, property_json: Seq<char>) -> Seq<char> {
    "(function() { var el = document.querySelector("@ + selector_json
        + "); if (!el) return ''; var cs = window.getComputedStyle(el); return cs["@ + property_json + "] || ''; })()"@
}

/// See `css_script_spec`.
pub fn css_script(selector: &str, property: &str) -> (r: String)
    ensures
        r@ == css_script_spec(json_string_of(selector@), json_string_of(property@)),
{
    let sel = json_string(selector);
    let prop = json_string(property);
    let mut out: Vec<char> = Vec::new();
    push_str(&mut out, "(function() { var el = document.querySelector(");
    push_str(&mut out, sel.as_str());
    push_str(&mut out, "); if (!el) return ''; var cs = window.getComputedStyle(el); return cs[");
    push_str(&mut out, prop.as_str());
    push_str(&mut out, "] || ''; })()");
    string_from_chars(&out)
}

/// The outcome of a style matcher: it passes when the value read equals
/// the expected one (or, negated, does not); else it fails with both.
pub open spec fn css_verdict_spec(expected: Seq<char>, actual: Seq<char>, negated: bool, selector: Seq<char>, custom: Option<Seq<char>>) -> Result<(), Seq<char>> {
    if (actual == expected) != negated {
        Ok(())
    } else {
        Err(assertion_message_spec(
            if negated { "not '"@ + expected + "'"@ } else { "'"@ + expected + "'"@ },
            actual,
            Some(selector),
            custom,
        ))
    }
}

/// See `css_verdict_spec`.
pub fn css_verdict(expected: &str, actual: &str, negated: bool, selector: &str, custom_message: Option<&str>) -> (r: Result<(), String>)
    ensures
        verdict_view(r) == css_verdict_spec(expected@, actual@, negated, selector@, opt_str(custom_message)),
{
    if str_eq(actual, expected) != negated {
        return Ok(());
    }
    let mut e: Vec<char> = Vec::new();
    if negated {
        push_str(&mut e, "not '");
    } else {
        push_str(&mut e, "'");
    }
    push_str(&mut e, expected);
    push_str(&mut e, "'");
    let es = string_from_chars(&e);
    Err(format_assertion_error(es.as_str(), actual, Some(selector), custom_message))
}

/// An accessibility rule a page breaks.
pub struct AccessibilityViolation {
    pub id: String,
    pub impact: String,
    pub description: String,
    pub help_url: String,
}

/// The violations found, the impacts that count, and rule settings.
pub struct AccessibilityViolationOptions {
    pub violations: Option<Vec<AccessibilityViolation>>,
    pub severity: Option<Vec<String>>,
    pub rules: Option<std::collections::HashMap<String, String>>,
}

/// Whether a violation counts: every one does unless impacts are given,
/// then those whose impact is among them.
pub open spec fn counts(v: AccessibilityViolation, severity: Option<Vec<String>>) -> bool {
    match severity {
        Some(s) => exists|i: int| 0 <= i < s@.len() && #[trigger] s@[i]@ == v.impact@,
        None => true,
    }
}

/// The violations that count, in order.
pub open spec fn counted(vs: Seq<AccessibilityViolation>, severity: Option<Vec<String>>) -> Seq<AccessibilityViolation>
    decreases vs.len(),
{
    if vs.len() == 0 {
        Seq::empty()
    } else if counts(vs.last(), severity) {
        counted(vs.drop_last(), severity).push(vs.last())
    } else {
        counted(vs.drop_last(), severity)
    }
}

/// One violation as it is listed: `- id (impact): description`.
pub open spec fn violation_line(v: AccessibilityViolation) -> Seq<char> {
    "- "@ + v.id@ + " ("@ + v.impact@ + "): "@ + v.description@
}

/// The listed violations, one per line.
pub open spec fn violation_lines(vs: Seq<AccessibilityViolation>) -> Seq<char>
    decreases vs.len(),
{
    if vs.len() == 0 {
        Seq::empty()
    } else if vs.len() == 1 {
        violation_line(vs[0])
    } else {
        violation_lines(vs.drop_last()) + "\n"@ + violation_line(vs.last())
    }
}

/// The outcome of the accessibility matcher: it passes when no violation
/// counts; else it fails listing those that do.
pub open spec fn accessibility_verdict_spec(options: Option<AccessibilityViolationOptions>) -> Result<(), Seq<char>> {
    let (vs, sev) = match options {
        Some(o) => (match o.violations { Some(v) => v@, None => Seq::empty() }, o.severity),
        None => (Seq::empty(), None),
    };
    let c = counted(vs, sev);
    if c.len() == 0 {
        Ok(())
    } else {
        Err("Expected no accessibility violations, but found:\n"@ + violation_lines(c))
    }
}

fn impact_listed(impact: &str, severity: &Vec<String>) -> (r: bool)
    ensures
        r == exists|i: int| 0 <= i < severity@.len() && #[trigger] severity@[i]@ == impact@,
{
    let mut i: usize = 0;
    while i < severity.len()
        invariant
            i <= severity@.len(),
            forall|k: int| 0 <= k < i ==> #[trigger] severity@[k]@ != impact@,
        decreases severity.len() - i,
    {
        if str_eq(severity[i].as_str(), impact) {
            assert(severity@[i as int]@ == impact@);
            return true;
        }
        i = i + 1;
    }
    false
}

fn severity_counts(v: &AccessibilityViolation, severity: &Option<Vec<String>>) -> (r: bool)
    ensures
        r == counts(*v, *severity),
{
    match severity {
        Some(s) => impact_listed(v.impact.as_str(), s),
        None => true,
    }
}

/// The accessibility matcher (see `accessibility_verdict_spec`).
pub fn accessibility_verdict(options: Option<AccessibilityViolationOptions>) -> (r: Result<(), String>)
    ensures
        verdict_view(r) == accessibility_verdict_spec(options),
{
    let (vs, sev): (Vec<AccessibilityViolation>, Option<Vec<String>>) = match options {
        Some(o) => (match o.violations { Some(v) => v, None => Vec::new() }, o.severity),
        None => (Vec::new(), None),
    };
    let ghost c = counted(vs@, sev);
    let mut lines: Vec<char> = Vec::new();
    let mut n: usize = 0;
    let mut i: usize = 0;
    while i < vs.len()
        invariant
            i <= vs@.len(),
            n == counted(vs@.take(i as int), sev).len(),
            n <= i,
            lines@ == violation_lines(counted(vs@.take(i as int), sev)),
        decreases vs.len() - i,
    {
        assert(vs@.take(i + 1).drop_last() =~= vs@.take(i as int));
        let v = &vs[i];
        if severity_counts(v, &sev) {
            if n > 0 {
                push_str(&mut lines, "\n");
            }
            push_str(&mut lines, "- ");
            push_str(&mut lines, v.id.as_str());
            push_str(&mut lines, " (");
            push_str(&mut lines, v.impact.as_str());
            push_str(&mut lines, "): ");
            push_str(&mut lines, v.description.as_str());
            n = n + 1;
            proof {
                let p = counted(vs@.take(i + 1), sev);
                assert(p == counted(vs@.take(i as int), sev).push(vs@[i as int]));
                if p.len() == 1 {
                    assert(p[0] == vs@[i as int]);
                    assert(lines@ =~= violation_line(vs@[i as int]));
                } else {
                    assert(p.drop_last() == counted(vs@.take(i as int), sev));
                    assert(lines@ =~= violation_lines(p.drop_last()) + "\n"@ + violation_line(p.last()));
                }
            }
        }
        i = i + 1;
    }
    assert(vs@.take(vs@.len() as int) =~= vs@);
    if n == 0 {
        Ok(())
    } else {
        let mut msg: Vec<char> = Vec::new();
        push_str(&mut msg, "Expected no accessibility violations, but found:\n");
        let head = msg;
        let mut out = head;
        let ghost before = out@;
        let mut j: usize = 0;
        while j < lines.len()
            invariant
                j <= lines@.len(),
                out@ == before + lines@.take(j as int),
            decreases lines.len() - j,
        {
            out.push(lines[j]);
            j = j + 1;
            assert(out@ =~= before + lines@.take(j as int));
        }
        assert(lines@.take(lines@.len() as int) =~= lines@);
        Err(string_from_chars(&out))
    }
}

/// Where the baseline of screenshot `name` is kept.
pub open spec fn baseline_path_spec(name: Seq<char>) -> Seq<char> {
    "__screenshots__/"@ + name + ".png"@
}

/// See `baseline_path_spec`.
pub fn baseline_path(name: &str) -> (r: String)
    ensures
        r@ == baseline_path_spec(name@),
{
    let mut out: Vec<char> = Vec::new();
    push_str(&mut out, "__screenshots__/");
    push_str(&mut out, name);
    push_str(&mut out, ".png");
    string_from_chars(&out)
}

/// The comparison of a screenshot with its baseline by size: equal sizes
/// pass; otherwise the failure names both sizes in bytes.
pub open spec fn screenshot_size_verdict_spec(name: Seq<char>, baseline_len: nat, current_len: nat) -> Result<(), Seq<char>> {
    if baseline_len == current_len {
        Ok(())
    } else {
        Err("Screenshot mismatch for '"@ + name + "': size changed from "@ + decimal_spec(baseline_len) + " to "@
            + decimal_spec(current_len) + " bytes"@)
    }
}

/// See `screenshot_size_verdict_spec`.
pub fn screenshot_size_verdict(name: &str, baseline_len: usize, current_len: usize) -> (r: Result<(), String>)
    ensures
        verdict_view(r) == screenshot_size_verdict_spec(name@, baseline_len as nat, current_len as nat),
{
    if baseline_len == current_len {
        return Ok(());
    }
    let mut out: Vec<char> = Vec::new();
    push_str(&mut out, "Screenshot mismatch for '");
    push_str(&mut out, name);
    push_str(&mut out, "': size changed from ");
    push_decimal(&mut out, baseline_len as u64);
    push_str(&mut out, " to ");
    push_decimal(&mut out, current_len as u64);
    push_str(&mut out, " bytes");
    Err(string_from_chars(&out))
}

/// Negating a property matcher swaps its outcome: it passes exactly when
/// the matcher without `not` fails.
pub proof fn law_not_inverts_state_matchers(
    k: StateMatcher,
    state: bool,
    negated: bool,
    selector: Seq<char>,
    custom: Option<Seq<char>>,
)
    ensures
        (state_verdict_spec(k, state, negated, selector, custom) is Ok) != (state_verdict_spec(
            k,
            state,
            !negated,
            selector,
            custom,
        ) is Ok),
{
}

/// Negating a text comparison swaps its outcome, for the same match.
pub proof fn law_not_inverts_value_matchers(
    k: ValueMatcher,
    e: TextOrRegExp,
    actual: Seq<char>,
    matched: bool,
    negated: bool,
    selector: Seq<char>,
    custom: Option<Seq<char>>,
)
    ensures
        (value_verdict_spec(k, e, actual, matched, negated, selector, custom) is Ok) != (value_verdict_spec(
            k,
            e,
            actual,
            matched,
            !negated,
            selector,
            custom,
        ) is Ok),
{
}


/// For a text expectation, every matcher but `toContainText` (and a URL
/// pattern with `*` or `?`) accepts exactly the equal text: `toHaveText`,
/// `toHaveValue`, `toHaveTitle` and a plain `toHaveURL` fail on a longer
/// text that merely contains the expected one. The verdict then passes
/// exactly when the texts are equal, or, negated, when they differ.
pub proof fn law_text_expectations_are_exact(
    k: ValueMatcher,
    s: String,
    actual: Seq<char>,
    negated: bool,
    selector: Seq<char>,
    custom: Option<Seq<char>>,
)
    requires
        k != ValueMatcher::ContainText,
        k == ValueMatcher::Url ==> !contains_spec(s@, "*"@) && !contains_spec(s@, "?"@),
    ensures
        value_match_spec(k, TextOrRegExp::Text(s), actual) <==> actual == s@,
        value_verdict_spec(
            k,
            TextOrRegExp::Text(s),
            actual,
            value_match_spec(k, TextOrRegExp::Text(s), actual),
            negated,
            selector,
            custom,
        ) is Ok <==> ((actual == s@) != negated),
{
}

/// `toContainText` accepts every text that holds the expected one, the
/// equal text among them; the exact matchers accept only the latter.
pub proof fn law_contain_text_is_weaker(k: ValueMatcher, s: String, actual: Seq<char>)
    requires
        k != ValueMatcher::Url,
        value_match_spec(k, TextOrRegExp::Text(s), actual),
    ensures
        value_match_spec(ValueMatcher::ContainText, TextOrRegExp::Text(s), actual),
{
    if k != ValueMatcher::ContainText {
        assert(actual.subrange(0, 0 + s@.len() as int) =~= s@);
    }
}

} // verus!
