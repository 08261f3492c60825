use turbosheet::locator::{
    actionability_timeout, count_from_result, strict_mode_verdict, wait_condition_script, wait_failure_message,
    wait_reached, wait_state, wait_timeout_ms, LocatorActionOptions, WaitForOptions,
};
use turbosheet::locator::{
    create_frame_locator, create_locator, frame_locator_check_strict_js, frame_locator_count_js, frame_locator_js,
    FilterOptions,
};
use turbosheet::engine::chromium::{action_script, focus_script, join_args, strip_source_map};
use turbosheet::engine::webkit::cookie_matches_url;
use turbosheet::injection::stealth::{StealthConfig, StealthNameStyle};
use turbosheet::injection::manager::InjectionManager;
use turbosheet::network::pattern::UrlPattern;

#[test]
fn locator_chains() {
    let l = create_locator("p1".to_string(), "#list".to_string());
    assert_eq!(l.locator("li".to_string()).selector, "#list >> li");
    assert_eq!(l.first().selector, "#list >> nth=0");
    assert_eq!(l.last().selector, "#list >> nth=-1");
    assert_eq!(l.nth(12).selector, "#list >> nth=12");
    assert_eq!(l.nth(0).selector, l.first().selector);
    assert_eq!(l.get_by_role("button".to_string(), Some("OK".to_string())).selector, "#list >> role=button[name=\"OK\"]");
    assert_eq!(l.get_by_role("button".to_string(), None).selector, "#list >> role=button");
    assert_eq!(l.get_by_text("Hi".to_string(), Some(true)).selector, "#list >> text=\"Hi\"");
    assert_eq!(l.get_by_text("Hi".to_string(), None).selector, "#list >> text=Hi");
    assert_eq!(l.get_by_label("Name".to_string(), Some(false)).selector, "#list >> label=Name");
    assert_eq!(l.get_by_placeholder("q".to_string(), Some(true)).selector, "#list >> placeholder=\"q\"");
    assert_eq!(l.get_by_alt_text("logo".to_string(), None).selector, "#list >> alt=logo");
    assert_eq!(l.get_by_title("t".to_string(), None).selector, "#list >> title=t");
    assert_eq!(l.get_by_test_id("save".to_string()).selector, "#list >> data-testid=save");
    let f = l.filter(FilterOptions { has_text: Some("x".to_string()), has_not_text: Some("y".to_string()) });
    assert_eq!(f.selector, "#list >> text=x");
    assert_eq!(f.page_id, "p1");
    assert_eq!(l.filter(FilterOptions { has_text: None, has_not_text: None }).selector, "#list");
}

#[test]
fn frame_locators() {
    let f = create_frame_locator("p".to_string(), "iframe".to_string(), None);
    assert_eq!(f.selector, "");
    let inner = f.locator("button".to_string());
    assert_eq!(inner.selector, "button");
    assert_eq!(inner.locator("span".to_string()).selector, "button >> span");
    assert_eq!(inner.nth(2).selector, "button >> nth=2");
    let js = frame_locator_js("iframe", "button", "textContent");
    assert!(js.starts_with("(function() {\n            var _f = document.querySelector(\"iframe\");"));
    assert!(js.contains("var _el = _d.querySelector(\"button\");"));
    assert!(js.contains("return _el.textContent;"));
    assert!(frame_locator_count_js("iframe", "li").contains("return String(_d.querySelectorAll(\"li\").length);"));
}

#[test]
fn action_scripts() {
    assert_eq!(join_args(&vec!["1".to_string(), "\"a\"".to_string()]), "1, \"a\"");
    assert_eq!(join_args(&vec![]), "");
    assert_eq!(strip_source_map("code();\n//# sourceMappingURL=a.map\n"), "code();");
    assert_eq!(strip_source_map("x //# sourceMappingURL=1 y //# sourceMappingURL=2"), "x //# sourceMappingURL=1 y");
    assert_eq!(strip_source_map("plain  \n"), "plain");
    let cfg = StealthConfig::disabled();
    let js = action_script(&cfg, "init(__TS_GLOBAL__);\n", "G", "B", "click", &vec!["\"#b\"".to_string()]);
    assert_eq!(
        js,
        "(async function(){init(G);var p=window.G;var k=p&&p.__tsSym;var ts=window[k||'__ts_internal'];if(!ts['click'])throw Error('Action click not found');var r=await ts['click'](\"#b\");return JSON.stringify({ok:true,data:r});})()"
    );
    let stealthy = StealthConfig { enabled: true, name_style: StealthNameStyle::Simple };
    let js2 = action_script(&stealthy, "", "G", "B", "blur", &vec![]);
    assert!(js2.contains("var p=window['G'];"));
    assert!(js2.contains("await ts['blur']();"));
    assert_eq!(focus_script("#in"), "(function() { var el = document.querySelector(\"#in\"); if (el) el.focus(); })()");
}

#[test]
fn cookie_url_matching() {
    assert!(cookie_matches_url("example.com", "/", "https://example.com/a"));
    assert!(cookie_matches_url(".example.com", "/a", "http://www.example.com/a/b"));
    assert!(!cookie_matches_url("example.com", "/b", "https://example.com/a"));
    assert!(!cookie_matches_url("example.com", "/", "https://notexample.com/"));
    assert!(cookie_matches_url("", "/", "https://any.host/x"));
    assert!(cookie_matches_url("example.com", "/", "example.com"));
    assert!(!cookie_matches_url("example.com", "/x", "https://example.com"));
}

#[test]
fn focus_script_escapes_selector_as_json() {
    assert_eq!(
        focus_script("a\"b\\c\n\t\u{1}\u{1f}é"),
        "(function() { var el = document.querySelector(\"a\\\"b\\\\c\\n\\t\\u0001\\u001fé\"); if (el) el.focus(); })()"
    );
}

#[test]
fn cookie_url_matching_ignores_port() {
    assert!(cookie_matches_url(".example.com", "/app", "https://sub.example.com/app/page"));
    assert!(cookie_matches_url(".example.com", "/app", "https://example.com/app"));
    assert!(!cookie_matches_url(".example.com", "/app", "https://badexample.com/app"));
    assert!(!cookie_matches_url(".example.com", "/app", "http://example.com/other"));
    assert!(cookie_matches_url(".example.com", "/app", "https://example.com:8443/app"));
    assert!(cookie_matches_url("example.com", "/", "example.com:80"));
    assert!(!cookie_matches_url("example.com", "/", "https://example.org:443/"));
}

#[test]
fn url_patterns() {
    assert_eq!(UrlPattern::glob_to_regex("**/api/*.json?"), "^.*/api/[^/]*\\.json.$");
    assert_eq!(UrlPattern::glob_to_regex("a+b(c)|[d]{e}^$\\"), "^a\\+b\\(c\\)\\|\\[d\\]\\{e\\}\\^\\$\\\\$");
    let p = UrlPattern::new("**/api/*").unwrap();
    assert!(p.matches("https://x.com/api/users"));
    assert!(!p.matches("https://x.com/api/users/1"));
    let q = p.clone();
    assert!(q.matches("http://h/api/v"));
}

#[test]
fn injection_manager_keeps_its_scripts() {
    let m = InjectionManager::new("core();".to_string(), "actions();".to_string());
    assert_eq!(m.core_script(), "core();");
    assert_eq!(m.actions_script(), "actions();");
}

#[test]
fn strict_mode_and_counting() {
    let l = create_locator("p".to_string(), "#a \"b\"".to_string());
    assert_eq!(
        l.strict_count_script("__g"),
        "(window['__g'].querySelectorAll ? window['__g'].querySelectorAll(\"#a \\\"b\\\"\").length : document.querySelectorAll(\"#a \\\"b\\\"\").length)"
    );
    assert_eq!(
        l.count_script("__g"),
        "(window.__g.querySelectorAll ? window.__g.querySelectorAll(\"#a \\\"b\\\"\").length : document.querySelectorAll(\"#a \\\"b\\\"\").length)"
    );
    assert_eq!(count_from_result("3"), 3);
    assert_eq!(count_from_result("x"), 0);
    assert_eq!(count_from_result("4294967296"), 0);
    assert!(strict_mode_verdict("1").is_ok());
    assert!(strict_mode_verdict("oops").is_ok());
    assert_eq!(strict_mode_verdict("2").unwrap_err(), "TurbosheetError::ElementNotUnique");
}

#[test]
fn actionability_and_waiting() {
    assert_eq!(actionability_timeout(&None), Some(30000));
    let o = LocatorActionOptions { timeout: Some(10), no_wait_after: None, force: Some(false), trial: None };
    assert_eq!(actionability_timeout(&Some(o)), Some(10));
    let forced = LocatorActionOptions { timeout: Some(10), no_wait_after: None, force: Some(true), trial: None };
    assert_eq!(actionability_timeout(&Some(forced)), None);
    assert_eq!(wait_timeout_ms(&None), 5000);
    assert_eq!(wait_state(&None), "attached");
    let w = Some(WaitForOptions { timeout: Some(7), state: Some("hidden".to_string()) });
    assert_eq!((wait_timeout_ms(&w), wait_state(&w)), (7, "hidden".to_string()));
    assert_eq!(wait_condition_script("attached", "#x"), "var e = document.querySelector(\"#x\"); e !== null && e !== undefined");
    assert_eq!(wait_condition_script("detached", "#x"), "var e = document.querySelector(\"#x\"); e === null || e === undefined");
    assert!(wait_condition_script("visible", "#x").starts_with("(function() { var e = document.querySelector(\"#x\"); if (!e) return 'false';"));
    assert!(wait_condition_script("hidden", "#x").contains("s.display === 'none' || s.visibility === 'hidden'"));
    assert!(wait_reached("true") && wait_reached("1") && !wait_reached("false"));
    assert_eq!(wait_failure_message("visible", 500), "Element did not reach state 'visible' within 500ms");
}

#[test]
fn action_calls_carry_an_id() {
    let m = InjectionManager::new("core();".to_string(), "init(__TS_GLOBAL__, __TS_BINDING__);".to_string());
    let with_id = m.build_action_call_with_id("g", "b", "click", "\"#x\"", "id-1");
    assert!(with_id.contains("init(g, b);"));
    assert!(with_id.contains("window.g.dispatch('id-1', 'click"));
    let fresh = m.build_action_call("g", "b", "click", "\"#x\"");
    let start = fresh.find("dispatch('").unwrap() + "dispatch('".len();
    let id = &fresh[start..start + 36];
    assert_eq!(id.len(), 36);
    assert_eq!(id.matches('-').count(), 4);
    assert_eq!(fresh.replace(id, "id-1"), with_id);
}

#[test]
fn frame_locators_from_a_locator() {
    let l = create_locator("p".to_string(), "#outer".to_string());
    let f = l.frame_locator("iframe".to_string());
    assert_eq!(f.frame_selector, "iframe");
    assert_eq!(f.selector, "");
    assert_eq!(f.page_id, "p");
    assert_eq!(frame_locator_check_strict_js("iframe", "#b"), frame_locator_count_js("iframe", "#b"));
}
