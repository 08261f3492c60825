use vstd::prelude::*;
use crate::json::{json_string, json_string_of};
use crate::text::{push_str, push_decimal, string_from_chars, decimal_spec, chars_of, str_eq, parse_unsigned, parse_unsigned_spec};

verus! {

/// Which elements an action or assertion targets: a selector on a page.
pub struct JsLocator {
    pub selector: String,
    pub page_id: String,
}

/// A selector inside the document of the frame `frame_selector` selects.
pub struct JsFrameLocator {
    pub frame_selector: String,
    pub selector: String,
    pub page_id: String,
}

/// How a locator is narrowed by text.
pub struct FilterOptions {
    pub has_text: Option<String>,
    pub has_not_text: Option<String>,
}

/// A selector followed by a narrower one: `a >> b`.
pub open spec fn chained(a: Seq<char>, b: Seq<char>) -> Seq<char> {
    a + " >> "@ + b
}

/// A selector narrowed by an engine part such as `text=` and its value,
/// quoted when the match is exact.
pub open spec fn engine_part(prefix: Seq<char>, value: Seq<char>, exact: bool) -> Seq<char> {
    if exact { prefix + "\""@ + value + "\""@ } else { prefix + value }
}

/// The selector of `filter`: narrowed to elements with the text, when one
/// is given; the text to avoid is not applied.
pub open spec fn filtered(selector: Seq<char>, options: FilterOptions) -> Seq<char> {
    match options.has_text {
        Some(t) => chained(selector, "text="@ + t@),
        None => selector,
    }
}

fn chain_str(a: &str, b: &str) -> (r: String)
    ensures
        r@ == chained(a@, b@),
{
    let mut out: Vec<char> = Vec::new();
    push_str(&mut out, a);
    push_str(&mut out, " >> ");
    push_str(&mut out, b);
    string_from_chars(&out)
}

fn engine_part_str(prefix: &str, value: &str, exact: bool) -> (r: String)
    ensures
        r@ == engine_part(prefix@, value@, exact),
{
    let mut out: Vec<char> = Vec::new();
    push_str(&mut out, prefix);
    if exact {
        push_str(&mut out, "\"");
    }
    push_str(&mut out, value);
    if exact {
        push_str(&mut out, "\"");
    }
    string_from_chars(&out)
}

fn nth_part(index: u32) -> (r: String)
    ensures
        r@ == "nth="@ + decimal_spec(index as nat),
{
    let mut out: Vec<char> = Vec::new();
    push_str(&mut out, "nth=");
    push_decimal(&mut out, index as u64);
    string_from_chars(&out)
}

fn filtered_str(selector: &str, options: &FilterOptions) -> (r: String)
    ensures
        r@ == filtered(selector@, *options),
{
    match &options.has_text {
        Some(t) => {
            let mut p: Vec<char> = Vec::new();
            push_str(&mut p, "text=");
            push_str(&mut p, t.as_str());
            let ps = string_from_chars(&p);
            chain_str(selector, ps.as_str())
        },
        None => selector.to_owned(),
    }
}

/// A locator for `selector` on page `page_id`.
pub fn create_locator(page_id: String, selector: String) -> (r: JsLocator)
    ensures
        r.selector == selector,
        r.page_id == page_id,
{
    JsLocator { selector, page_id }
}

/// A frame locator for `frame_selector` on page `page_id`, with the inner
/// selector given or empty.
pub fn create_frame_locator(page_id: String, frame_selector: String, selector: Option<String>) -> (r: JsFrameLocator)
    ensures
        r.frame_selector == frame_selector,
        r.page_id == page_id,
        r.selector@ == match selector {
            Some(s) => s@,
            None => Seq::<char>::empty(),
        },
{
    let inner = match selector {
        Some(s) => s,
        None => String::new(),
    };
    JsFrameLocator { frame_selector, selector: inner, page_id }
}

impl JsLocator {
    /// The elements `selector` selects inside this locator's.
    pub fn locator(&self, selector: String) -> (r: JsLocator)
        ensures
            r.selector@ == chained(self.selector@, selector@),
            r.page_id == self.page_id,
    {
        JsLocator { selector: chain_str(self.selector.as_str(), selector.as_str()), page_id: self.page_id.clone() }
    }

    /// A frame locator for the frame `frame_selector` selects, with no inner
    /// selector yet.
    pub fn frame_locator(&self, frame_selector: String) -> (r: JsFrameLocator)
        ensures
            r.frame_selector == frame_selector,
            r.selector@.len() == 0,
            r.page_id == self.page_id,
    {
        JsFrameLocator { frame_selector, selector: String::new(), page_id: self.page_id.clone() }
    }

    /// This locator narrowed by `options` (see `filtered`).
    pub fn filter(&self, options: FilterOptions) -> (r: JsLocator)
        ensures
            r.selector@ == filtered(self.selector@, options),
            r.page_id == self.page_id,
    {
        JsLocator { selector: filtered_str(self.selector.as_str(), &options), page_id: self.page_id.clone() }
    }

    /// The first element: `nth=0`.
    pub fn first(&self) -> (r: JsLocator)
        ensures
            r.selector@ == chained(self.selector@, "nth=0"@),
            r.page_id == self.page_id,
    {
        JsLocator { selector: chain_str(self.selector.as_str(), "nth=0"), page_id: self.page_id.clone() }
    }

    /// The last element: `nth=-1`.
    pub fn last(&self) -> (r: JsLocator)
        ensures
            r.selector@ == chained(self.selector@, "nth=-1"@),
            r.page_id == self.page_id,
    {
        JsLocator { selector: chain_str(self.selector.as_str(), "nth=-1"), page_id: self.page_id.clone() }
    }

    /// The element at `index`, counting from 0.
    pub fn nth(&self, index: u32) -> (r: JsLocator)
        ensures
            r.selector@ == chained(self.selector@, "nth="@ + decimal_spec(index as nat)),
            r.page_id == self.page_id,
    {
        let p = nth_part(index);
        JsLocator { selector: chain_str(self.selector.as_str(), p.as_str()), page_id: self.page_id.clone() }
    }

    /// Elements with an ARIA role and, when given, an accessible name.
    pub fn get_by_role(&self, role: String, name: Option<String>) -> (r: JsLocator)
        ensures
            r.selector@ == chained(self.selector@, match name {
                Some(n) => "role="@ + role@ + "[name=\""@ + n@ + "\"]"@,
                None => "role="@ + role@,
            }),
            r.page_id == self.page_id,
    {
        let mut p: Vec<char> = Vec::new();
        push_str(&mut p, "role=");
        push_str(&mut p, role.as_str());
        match &name {
            Some(n) => {
                push_str(&mut p, "[name=\"");
                push_str(&mut p, n.as_str());
                push_str(&mut p, "\"]");
            },
            None => {},
        }
        let ps = string_from_chars(&p);
        JsLocator { selector: chain_str(self.selector.as_str(), ps.as_str()), page_id: self.page_id.clone() }
    }

    /// Elements by their text, matched exactly when `exact` is true.
    pub fn get_by_text(&self, text: String, exact: Option<bool>) -> (r: JsLocator)
        ensures
            r.selector@ == chained(self.selector@, engine_part("text="@, text@, exact == Some(true))),
            r.page_id == self.page_id,
    {
        self.by_part("text=", text.as_str(), exact)
    }

    /// Elements by their label, matched exactly when `exact` is true.
    pub fn get_by_label(&self, label: String, exact: Option<bool>) -> (r: JsLocator)
        ensures
            r.selector@ == chained(self.selector@, engine_part("label="@, label@, exact == Some(true))),
            r.page_id == self.page_id,
    {
        self.by_part("label=", label.as_str(), exact)
    }

    /// Inputs by their placeholder, matched exactly when `exact` is true.
    pub fn get_by_placeholder(&self, placeholder: String, exact: Option<bool>) -> (r: JsLocator)
        ensures
            r.selector@ == chained(self.selector@, engine_part("placeholder="@, placeholder@, exact == Some(true))),
            r.page_id == self.page_id,
    {
        self.by_part("placeholder=", placeholder.as_str(), exact)
    }

    /// Images by their alternative text, matched exactly when `exact` is
    /// true.
    pub fn get_by_alt_text(&self, alt_text: String, exact: Option<bool>) -> (r: JsLocator)
        ensures
            r.selector@ == chained(self.selector@, engine_part("alt="@, alt_text@, exact == Some(true))),
            r.page_id == self.page_id,
    {
        self.by_part("alt=", alt_text.as_str(), exact)
    }

    /// Elements by their title, matched exactly when `exact` is true.
    pub fn get_by_title(&self, title: String, exact: Option<bool>) -> (r: JsLocator)
        ensures
            r.selector@ == chained(self.selector@, engine_part("title="@, title@, exact == Some(true))),
            r.page_id == self.page_id,
    {
        self.by_part("title=", title.as_str(), exact)
    }

    /// Elements by their `data-testid`.
    pub fn get_by_test_id(&self, test_id: String) -> (r: JsLocator)
        ensures
            r.selector@ == chained(self.selector@, "data-testid="@ + test_id@),
            r.page_id == self.page_id,
    {
        self.by_part("data-testid=", test_id.as_str(), None)
    }

    fn by_part(&self, prefix: &str, value: &str, exact: Option<bool>) -> (r: JsLocator)
        ensures
            r.selector@ == chained(self.selector@, engine_part(prefix@, value@, exact == Some(true))),
            r.page_id == self.page_id,
    {
        let is_exact = match exact {
            Some(b) => b,
            None => false,
        };
        let p = engine_part_str(prefix, value, is_exact);
        JsLocator { selector: chain_str(self.selector.as_str(), p.as_str()), page_id: self.page_id.clone() }
    }
}

impl JsFrameLocator {
    /// The elements `selector` selects inside this locator's, within the
    /// frame; the selector alone when this one is empty.
    pub fn locator(&self, selector: String) -> (r: JsFrameLocator)
        ensures
            r.selector@ == if self.selector@.len() == 0 { selector@ } else { chained(self.selector@, selector@) },
            r.frame_selector == self.frame_selector,
            r.page_id == self.page_id,
    {
        let inner = if self.selector.as_str().is_empty() { selector } else { chain_str(self.selector.as_str(), selector.as_str()) };
        JsFrameLocator { frame_selector: self.frame_selector.clone(), selector: inner, page_id: self.page_id.clone() }
    }

    /// The first element: `nth=0`.
    pub fn first(&self) -> (r: JsFrameLocator)
        ensures
            r.selector@ == chained(self.selector@, "nth=0"@),
            r.frame_selector == self.frame_selector,
            r.page_id == self.page_id,
    {
        JsFrameLocator {
            frame_selector: self.frame_selector.clone(),
            selector: chain_str(self.selector.as_str(), "nth=0"),
            page_id: self.page_id.clone(),
        }
    }

    /// The last element: `nth=-1`.
    pub fn last(&self) -> (r: JsFrameLocator)
        ensures
            r.selector@ == chained(self.selector@, "nth=-1"@),
            r.frame_selector == self.frame_selector,
            r.page_id == self.page_id,
    {
        JsFrameLocator {
            frame_selector: self.frame_selector.clone(),
            selector: chain_str(self.selector.as_str(), "nth=-1"),
            page_id: self.page_id.clone(),
        }
    }

    /// The element at `index`, counting from 0.
    pub fn nth(&self, index: u32) -> (r: JsFrameLocator)
        ensures
            r.selector@ == chained(self.selector@, "nth="@ + decimal_spec(index as nat)),
            r.frame_selector == self.frame_selector,
            r.page_id == self.page_id,
    {
        let p = nth_part(index);
        JsFrameLocator {
            frame_selector: self.frame_selector.clone(),
            selector: chain_str(self.selector.as_str(), p.as_str()),
            page_id: self.page_id.clone(),
        }
    }

    /// This locator narrowed by `options` (see `filtered`).
    pub fn filter(&self, options: FilterOptions) -> (r: JsFrameLocator)
        ensures
            r.selector@ == filtered(self.selector@, options),
            r.frame_selector == self.frame_selector,
            r.page_id == self.page_id,
    {
        JsFrameLocator {
            frame_selector: self.frame_selector.clone(),
            selector: filtered_str(self.selector.as_str(), &options),
            page_id: self.page_id.clone(),
        }
    }
}

/// The script that evaluates `expr` on the element `inner_json` selects
/// inside the frame `frame_json` selects (both JSON strings), `null` when
/// the frame, its document or the element is missing.
pub open spec fn frame_expr_script_spec(frame_json: Seq<char>, inner_json: Seq<char>, expr: Seq<char>) -> Seq<char> {
    ("(function() {\n            var _f = document.querySelector(")@ + frame_json + (");\n            if (!_f) { return null; }\n            var _d = _f.contentDocument || (_f.contentWindow && _f.contentWindow.document);\n            if (!_d) { return null; }\n            var _el = _d.querySelector(")@ + inner_json + (");\n            if (!_el) { return null; }\n            return _el.")@ + expr + (";\n        })()")@
}

/// The script that counts the elements `inner_json` selects inside the
/// frame `frame_json` selects, as text; `'0'` without frame or document.
pub open spec fn frame_count_script_spec(frame_json: Seq<char>, inner_json: Seq<char>) -> Seq<char> {
    ("(function() {\n            var _f = document.querySelector(")@ + frame_json + (");\n            if (!_f) { return '0'; }\n            var _d = _f.contentDocument || (_f.contentWindow && _f.contentWindow.document);\n            if (!_d) { return '0'; }\n            return String(_d.querySelectorAll(")@ + inner_json + (").length);\n        })()")@
}

/// See `frame_expr_script_spec`; the selectors are written as JSON strings.
pub fn frame_locator_js(frame_selector: &str, inner_selector: &str, expr: &str) -> (r: String)
    ensures
        r@ == frame_expr_script_spec(json_string_of(frame_selector@), json_string_of(inner_selector@), expr@),
{
    let fs = json_string(frame_selector);
    let is = json_string(inner_selector);
    let mut out: Vec<char> = Vec::new();
    push_str(&mut out, "(function() {\n            var _f = document.querySelector(");
    push_str(&mut out, fs.as_str());
    push_str(&mut out, ");\n            if (!_f) { return null; }\n            var _d = _f.contentDocument || (_f.contentWindow && _f.contentWindow.document);\n            if (!_d) { return null; }\n            var _el = _d.querySelector(");
    push_str(&mut out, is.as_str());
    push_str(&mut out, ");\n            if (!_el) { return null; }\n            return _el.");
    push_str(&mut out, expr);
    push_str(&mut out, ";\n        })()");
    string_from_chars(&out)
}

/// See `frame_count_script_spec`; the selectors are written as JSON
/// strings.
pub fn frame_locator_count_js(frame_selector: &str, inner_selector: &str) -> (r: String)
    ensures
        r@ == frame_count_script_spec(json_string_of(frame_selector@), json_string_of(inner_selector@)),
{
    let fs = json_string(frame_selector);
    let is = json_string(inner_selector);
    let mut out: Vec<char> = Vec::new();
    push_str(&mut out, "(function() {\n            var _f = document.querySelector(");
    push_str(&mut out, fs.as_str());
    push_str(&mut out, ");\n            if (!_f) { return '0'; }\n            var _d = _f.contentDocument || (_f.contentWindow && _f.contentWindow.document);\n            if (!_d) { return '0'; }\n            return String(_d.querySelectorAll(");
    push_str(&mut out, is.as_str());
    push_str(&mut out, ").length);\n        })()");
    string_from_chars(&out)
}

/// The script for the strict-mode check inside a frame: the same count as
/// `frame_locator_count_js`.
pub fn frame_locator_check_strict_js(frame_selector: &str, inner_selector: &str) -> (r: String)
    ensures
        r@ == frame_count_script_spec(json_string_of(frame_selector@), json_string_of(inner_selector@)),
{
    let fs = json_string(frame_selector);
    let is = json_string(inner_selector);
    let mut out: Vec<char> = Vec::new();
    push_str(&mut out, "(function() {\n            var _f = document.querySelector(");
    push_str(&mut out, fs.as_str());
    push_str(&mut out, ");\n            if (!_f) { return '0'; }\n            var _d = _f.contentDocument || (_f.contentWindow && _f.contentWindow.document);\n            if (!_d) { return '0'; }\n            return String(_d.querySelectorAll(");
    push_str(&mut out, is.as_str());
    push_str(&mut out, ").length);\n        })()");
    string_from_chars(&out)
}

/// How an action on a locator waits: its timeout in milliseconds, and
/// whether the actionability checks are skipped.
pub struct LocatorActionOptions {
    pub timeout: Option<u32>,
    pub no_wait_after: Option<bool>,
    pub force: Option<bool>,
    pub trial: Option<bool>,
}

/// How `wait_for` waits: its timeout in milliseconds and the state waited
/// for (`attached`, `detached`, `visible` or `hidden`).
pub struct WaitForOptions {
    pub timeout: Option<u32>,
    pub state: Option<String>,
}

/// How long an action waits for its element to become actionable: not at
/// all when forced, else its timeout or 30000 ms.
pub open spec fn actionability_timeout_spec(options: Option<LocatorActionOptions>) -> Option<u32> {
    match options {
        Some(o) => if o.force == Some(true) {
            None
        } else {
            Some(
                match o.timeout {
                    Some(t) => t,
                    None => 30000u32,
                },
            )
        },
        None => Some(30000u32),
    }
}

/// See `actionability_timeout_spec`.
pub fn actionability_timeout(options: &Option<LocatorActionOptions>) -> (r: Option<u32>)
    ensures
        r == actionability_timeout_spec(*options),
{
    match options {
        Some(o) => {
            if o.force == Some(true) {
                None
            } else {
                match o.timeout {
                    Some(t) => Some(t),
                    None => Some(30000),
                }
            }
        },
        None => Some(30000),
    }
}

/// The script the strict-mode check counts elements with: through the
/// injected global `global` (by bracket) when it offers
/// `querySelectorAll`, else through the document.
pub open spec fn strict_count_script_spec(global: Seq<char>, selector_json: Seq<char>) -> Seq<char> {
    "(window['"@ + global + "'].querySelectorAll ? window['"@ + global + "'].querySelectorAll("@ + selector_json
        + ").length : document.querySelectorAll("@ + selector_json + ").length)"@
}

/// The script `count` counts elements with: as `strict_count_script_spec`,
/// the global named with a dot.
pub open spec fn count_script_spec(global: Seq<char>, selector_json: Seq<char>) -> Seq<char> {
    "(window."@ + global + ".querySelectorAll ? window."@ + global + ".querySelectorAll("@ + selector_json
        + ").length : document.querySelectorAll("@ + selector_json + ").length)"@
}

/// The count a script answered: its text read as a `u32`, or 0 when it
/// does not read as one.
pub open spec fn answered_count(result: Seq<char>) -> nat {
    match parse_unsigned_spec(result, 4294967295) {
        Some(n) => n,
        None => 0,
    }
}

/// See `answered_count`.
pub fn count_from_result(result: &str) -> (r: u32)
    ensures
        r == answered_count(result@),
{
    let v = chars_of(result);
    match parse_unsigned(&v, 4294967295) {
        Some(n) => n,
        None => 0,
    }
}

/// The strict-mode check on a count a script answered: more than one
/// element fails with `TurbosheetError::ElementNotUnique`.
pub fn strict_mode_verdict(result: &str) -> (r: Result<(), String>)
    ensures
        match r {
            Ok(()) => answered_count(result@) <= 1,
            Err(m) => answered_count(result@) > 1 && m@ == "TurbosheetError::ElementNotUnique"@,
        },
{
    if count_from_result(result) > 1 {
        Err(String::from_str("TurbosheetError::ElementNotUnique"))
    } else {
        Ok(())
    }
}

impl JsLocator {
    /// The strict-mode counting script of this locator (see
    /// `strict_count_script_spec`); the selector is written as a JSON
    /// string.
    pub fn strict_count_script(&self, global: &str) -> (r: String)
        ensures
            r@ == strict_count_script_spec(global@, json_string_of(self.selector@)),
    {
        let sel = json_string(self.selector.as_str());
        let mut out: Vec<char> = Vec::new();
        push_str(&mut out, "(window['");
        push_str(&mut out, global);
        push_str(&mut out, "'].querySelectorAll ? window['");
        push_str(&mut out, global);
        push_str(&mut out, "'].querySelectorAll(");
        push_str(&mut out, sel.as_str());
        push_str(&mut out, ").length : document.querySelectorAll(");
        push_str(&mut out, sel.as_str());
        push_str(&mut out, ").length)");
        assert(out@ =~= strict_count_script_spec(global@, json_string_of(self.selector@)));
        string_from_chars(&out)
    }

    /// The counting script of this locator (see `count_script_spec`).
    pub fn count_script(&self, global: &str) -> (r: String)
        ensures
            r@ == count_script_spec(global@, json_string_of(self.selector@)),
    {
        let sel = json_string(self.selector.as_str());
        let mut out: Vec<char> = Vec::new();
        push_str(&mut out, "(window.");
        push_str(&mut out, global);
        push_str(&mut out, ".querySelectorAll ? window.");
        push_str(&mut out, global);
        push_str(&mut out, ".querySelectorAll(");
        push_str(&mut out, sel.as_str());
        push_str(&mut out, ").length : document.querySelectorAll(");
        push_str(&mut out, sel.as_str());
        push_str(&mut out, ").length)");
        assert(out@ =~= count_script_spec(global@, json_string_of(self.selector@)));
        string_from_chars(&out)
    }
}

/// How long `wait_for` waits: its timeout or 5000 ms.
pub fn wait_timeout_ms(options: &Option<WaitForOptions>) -> (r: u64)
    ensures
        r == (match options {
            Some(o) => match o.timeout {
                Some(t) => t as u64,
                None => 5000u64,
            },
            None => 5000u64,
        }),
{
    match options {
        Some(o) => match o.timeout {
            Some(t) => t as u64,
            None => 5000,
        },
        None => 5000,
    }
}

/// The state `wait_for` waits for: the one given, or `attached`.
pub fn wait_state(options: &Option<WaitForOptions>) -> (r: String)
    ensures
        r@ == (match options {
            Some(o) => match o.state {
                Some(s) => s@,
                None => "attached"@,
            },
            None => "attached"@,
        }),
{
    match options {
        Some(o) => match &o.state {
            Some(s) => s.clone(),
            None => String::from_str("attached"),
        },
        None => String::from_str("attached"),
    }
}

/// The condition `wait_for` polls for `state` on the element
/// `selector_json` selects: gone for `detached`, shown for `visible`,
/// missing or not shown for `hidden`, and present for any other state.
pub open spec fn wait_condition_spec(state: Seq<char>, selector_json: Seq<char>) -> Seq<char> {
    if state == "detached"@ {
        "var e = document.querySelector("@ + selector_json + "); e === null || e === undefined"@
    } else if state == "visible"@ {
        "(function() { var e = document.querySelector("@ + selector_json
            + "); if (!e) return 'false'; var s = window.getComputedStyle(e); return String(s.display !== 'none' && s.visibility !== 'hidden' && s.opacity !== '0'); })()"@
    } else if state == "hidden"@ {
        "(function() { var e = document.querySelector("@ + selector_json
            + "); if (!e) return 'true'; var s = window.getComputedStyle(e); return String(s.display === 'none' || s.visibility === 'hidden' || s.opacity === '0'); })()"@
    } else {
        "var e = document.querySelector("@ + selector_json + "); e !== null && e !== undefined"@
    }
}

/// See `wait_condition_spec`; the selector is written as a JSON string.
pub fn wait_condition_script(state: &str, selector: &str) -> (r: String)
    ensures
        r@ == wait_condition_spec(state@, json_string_of(selector@)),
{
    let sel = json_string(selector);
    let mut out: Vec<char> = Vec::new();
    if str_eq(state, "detached") {
        push_str(&mut out, "var e = document.querySelector(");
        push_str(&mut out, sel.as_str());
        push_str(&mut out, "); e === null || e === undefined");
    } else if str_eq(state, "visible") {
        push_str(&mut out, "(function() { var e = document.querySelector(");
        push_str(&mut out, sel.as_str());
        push_str(
            &mut out,
            "); if (!e) return 'false'; var s = window.getComputedStyle(e); return String(s.display !== 'none' && s.visibility !== 'hidden' && s.opacity !== '0'); })()",
        );
    } else if str_eq(state, "hidden") {
        push_str(&mut out, "(function() { var e = document.querySelector(");
        push_str(&mut out, sel.as_str());
        push_str(
            &mut out,
            "); if (!e) return 'true'; var s = window.getComputedStyle(e); return String(s.display === 'none' || s.visibility === 'hidden' || s.opacity === '0'); })()",
        );
    } else {
        push_str(&mut out, "var e = document.querySelector(");
        push_str(&mut out, sel.as_str());
        push_str(&mut out, "); e !== null && e !== undefined");
    }
    assert(out@ =~= wait_condition_spec(state@, json_string_of(selector@)));
    string_from_chars(&out)
}

/// Whether the condition's answer means the state is reached: `true` or
/// `1`.
pub fn wait_reached(result: &str) -> (r: bool)
    ensures
        r == (result@ == "true"@ || result@ == "1"@),
{
    str_eq(result, "true") || str_eq(result, "1")
}

/// The failure of one poll of `wait_for`.
pub fn wait_failure_message(state: &str, timeout_ms: u64) -> (r: String)
    ensures
        r@ == "Element did not reach state '"@ + state@ + "' within "@ + decimal_spec(timeout_ms as nat) + "ms"@,
{
    let mut out: Vec<char> = Vec::new();
    push_str(&mut out, "Element did not reach state '");
    push_str(&mut out, state);
    push_str(&mut out, "' within ");
    push_decimal(&mut out, timeout_ms);
    push_str(&mut out, "ms");
    assert(out@ =~= "Element did not reach state '"@ + state@ + "' within "@ + decimal_spec(timeout_ms as nat) + "ms"@);
    string_from_chars(&out)
}

/// `first()` selects what `nth(0)` selects.
pub proof fn law_first_is_nth_zero(selector: Seq<char>)
    ensures
        chained(selector, "nth=0"@) == chained(selector, "nth="@ + decimal_spec(0)),
{
    reveal_strlit("nth=0");
    reveal_strlit("nth=");
    assert("nth=0"@ =~= "nth="@ + decimal_spec(0));
}

} // verus!
