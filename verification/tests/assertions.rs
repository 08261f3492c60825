use turbosheet::assertions::engine::{AssertionEngine, PollAction};
use turbosheet::assertions::matchers::{
    accessibility_verdict, attribute_verdict, attribute_script, baseline_path, class_verdict, count_verdict,
    class_script, css_script, css_verdict, engine_for, format_assertion_error, screenshot_size_verdict,
    script_says_true, value_script,
    AccessibilityViolation, AccessibilityViolationOptions, MatcherConfig, RegExp, StateMatcher, TextOrRegExp,
    ValueMatcher,
};
use turbosheet::error::TurbosheetError;

#[test]
fn test_jitter_within_bounds() {
    for interval_ms in [1u64, 10, 50, 100, 200, 500] {
        let max_jitter = interval_ms / 10;
        for _ in 0..100 {
            let jitter = AssertionEngine::compute_jitter(interval_ms);
            assert!(jitter <= max_jitter, "jitter {}ms exceeds 10% of {}ms", jitter, interval_ms);
        }
    }
}

#[test]
fn jitter_from_a_clock_reading() {
    assert_eq!(AssertionEngine::jitter_from(5, 123), 0);
    assert_eq!(AssertionEngine::jitter_from(100, 123), 3);
    assert_eq!(AssertionEngine::jitter_from(500, 1_000_049), 49);
}

#[test]
fn backoff_doubles_up_to_the_maximum() {
    let e = AssertionEngine::default();
    assert_eq!((e.timeout_ms, e.initial_interval_ms, e.max_interval_ms), (30000, 100, 500));
    assert_eq!(e.next_interval(100), 200);
    assert_eq!(e.next_interval(200), 400);
    assert_eq!(e.next_interval(400), 500);
    assert_eq!(e.next_interval(u64::MAX), 500);
}

#[test]
fn decision_after_a_failed_try() {
    let e = AssertionEngine::default();
    match e.decide_after_failure(1000, 999, 100, 7, 3, "not ready") {
        PollAction::Retry { sleep_ms, next_interval_ms } => {
            assert_eq!(sleep_ms, 107);
            assert_eq!(next_interval_ms, 200);
        }
        PollAction::Fail(_) => panic!("should retry"),
    }
    match e.decide_after_failure(200, 200, 100, 0, 5, "fail") {
        PollAction::Fail(TurbosheetError::Other(m)) => {
            assert_eq!(m, "Assertion timeout after 200ms (5 polls). fail");
            assert!(m.contains("timeout") && m.contains("polls"));
        }
        _ => panic!("should fail"),
    }
}

#[test]
fn assertion_messages() {
    assert_eq!(format_assertion_error("a", "b", None, None), "Expected: a\nActual:   b");
    assert_eq!(
        format_assertion_error("a", "b", Some("#x"), Some("custom  ")),
        "Expected: a\nActual:   b\nSelector: #x\ncustom"
    );
}

#[test]
fn matcher_settings() {
    let e = engine_for(&Some(MatcherConfig { timeout: Some(5), polling_interval: Some(7), message: None }));
    assert_eq!((e.timeout_ms, e.initial_interval_ms, e.max_interval_ms), (5, 7, 500));
    let d = engine_for(&None);
    assert_eq!((d.timeout_ms, d.initial_interval_ms), (30000, 100));
}

#[test]
fn property_matchers() {
    assert!(StateMatcher::Visible.verdict(true, false, "#a", None).is_ok());
    assert_eq!(
        StateMatcher::Visible.verdict(false, false, "#a", None).unwrap_err(),
        "Expected: visible\nActual:   hidden\nSelector: #a"
    );
    assert_eq!(
        StateMatcher::Checked.verdict(true, true, "#c", Some("msg")).unwrap_err(),
        "Expected: not checked\nActual:   checked\nSelector: #c\nmsg"
    );
    assert!(StateMatcher::Hidden.verdict(true, false, "#a", None).is_ok());
    assert!(StateMatcher::Visible.script("#a").is_none());
    assert_eq!(
        StateMatcher::Checked.script("#c").unwrap(),
        "(function() { var el = document.querySelector(\"#c\"); if (!el) return false; return el.checked === true; })()"
    );
    assert!(script_says_true("true"));
    assert!(!script_says_true("True"));
}

#[test]
fn text_matchers() {
    let exact = TextOrRegExp::Text("Hello".to_string());
    assert!(ValueMatcher::Text.verdict(&exact, "Hello", false, "h1", None).is_ok());
    assert_eq!(
        ValueMatcher::Text.verdict(&exact, "Bye", true, "h1", None).ok(),
        Some(())
    );
    assert_eq!(
        ValueMatcher::Text.verdict(&exact, "Bye", false, "h1", None).unwrap_err(),
        "Expected: Hello\nActual:   Bye\nSelector: h1"
    );
    assert!(ValueMatcher::ContainText.verdict(&TextOrRegExp::Text("ell".to_string()), "Hello", false, "h1", None).is_ok());
    let re = TextOrRegExp::Regex(RegExp { pattern: "^H.*o$".to_string(), flags: None });
    assert!(ValueMatcher::Text.matches(&re, "Hello"));
    assert!(!ValueMatcher::Text.matches(&re, "Help"));
    assert!(!ValueMatcher::Text.matches(&TextOrRegExp::Regex(RegExp { pattern: "(".to_string(), flags: None }), "("));
    assert_eq!(
        ValueMatcher::Title.verdict(&exact, "X", true, "ignored", None).ok(),
        Some(())
    );
    assert_eq!(
        ValueMatcher::Title.verdict(&exact, "Hello", true, "ignored", None).unwrap_err(),
        "Expected: not 'Hello'\nActual:   Hello"
    );
}

#[test]
fn url_matcher_globs() {
    let glob = TextOrRegExp::Text("https://*.example.com/*".to_string());
    assert!(ValueMatcher::Url.matches(&glob, "https://www.example.com/a"));
    assert!(!ValueMatcher::Url.matches(&glob, "https://example.org/a"));
    let plain = TextOrRegExp::Text("https://a.b/".to_string());
    assert!(ValueMatcher::Url.matches(&plain, "https://a.b/"));
    assert_eq!(
        ValueMatcher::Url.verdict(&plain, "https://c.d/", false, "", None).unwrap_err(),
        "Expected: matching 'https://a.b/'\nActual:   https://c.d/"
    );
}

#[test]
fn attribute_matcher() {
    let want = Some(TextOrRegExp::Text("x".to_string()));
    assert!(attribute_verdict("id", &want, "x", false, "#e", None).is_ok());
    assert_eq!(
        attribute_verdict("id", &want, "null", false, "#e", None).unwrap_err(),
        "Expected: attribute 'id' to be 'x'\nActual:   missing\nSelector: #e"
    );
    assert!(attribute_verdict("id", &None, "", true, "#e", None).is_ok());
    assert_eq!(
        attribute_verdict("id", &None, "v", true, "#e", None).unwrap_err(),
        "Expected: not to have attribute 'id'\nActual:   v\nSelector: #e"
    );
    assert_eq!(
        attribute_script("#e", "data-x"),
        "(function() { var el = document.querySelector(\"#e\"); if (!el) return null; return el.getAttribute(\"data-x\"); })()"
    );
}

#[test]
fn count_class_css_matchers() {
    assert!(count_verdict(3, "3", false, "li", None).is_ok());
    assert_eq!(count_verdict(3, "oops", false, "li", None).unwrap_err(), "Expected: 3\nActual:   0\nSelector: li");
    assert_eq!(count_verdict(2, "2", true, "li", None).unwrap_err(), "Expected: not 2\nActual:   2\nSelector: li");
    assert_eq!(class_verdict("on", false, false, "b", None).unwrap_err(), "Expected: 'on'\nActual:   absent\nSelector: b");
    assert!(class_verdict("on", false, true, "b", None).is_ok());
    assert_eq!(css_verdict("red", "blue", false, "p", None).unwrap_err(), "Expected: 'red'\nActual:   blue\nSelector: p");
}

#[test]
fn accessibility_matcher() {
    assert!(accessibility_verdict(None).is_ok());
    let v = |id: &str, impact: &str| AccessibilityViolation {
        id: id.to_string(),
        impact: impact.to_string(),
        description: format!("{} broken", id),
        help_url: String::new(),
    };
    let opts = AccessibilityViolationOptions {
        violations: Some(vec![v("a", "minor"), v("b", "serious"), v("c", "critical")]),
        severity: Some(vec!["serious".to_string(), "critical".to_string()]),
        rules: None,
    };
    assert_eq!(
        accessibility_verdict(Some(opts)).unwrap_err(),
        "Expected no accessibility violations, but found:\n- b (serious): b broken\n- c (critical): c broken"
    );
    let only_minor = AccessibilityViolationOptions {
        violations: Some(vec![v("a", "minor")]),
        severity: Some(vec!["critical".to_string()]),
        rules: None,
    };
    assert!(accessibility_verdict(Some(only_minor)).is_ok());
}

#[test]
fn screenshot_helpers() {
    assert_eq!(baseline_path("home"), "__screenshots__/home.png");
    assert!(screenshot_size_verdict("home", 10, 10).is_ok());
    assert_eq!(
        screenshot_size_verdict("home", 10, 12).unwrap_err(),
        "Screenshot mismatch for 'home': size changed from 10 to 12 bytes"
    );
}

#[test]
fn error_messages() {
    assert_eq!(TurbosheetError::Timeout(250).message(), "Timeout after 250ms");
    assert_eq!(
        TurbosheetError::ElementNotUnique { selector: "li".to_string(), count: 3 }.message(),
        "Element not unique: li (found 3)"
    );
    assert_eq!(
        TurbosheetError::AssertionFailed { expected: "a".to_string(), actual: "b".to_string() }.message(),
        "Assertion failed: expected a, got b"
    );
    assert_eq!(TurbosheetError::Other("plain".to_string()).message(), "plain");
    assert_eq!(TurbosheetError::Network("down".to_string()).message(), "Network error: down");
}

#[test]
fn element_scripts() {
    assert_eq!(
        value_script("#in"),
        "(function() { var el = document.querySelector(\"#in\"); if (!el) return ''; return el.value || ''; })()"
    );
    assert_eq!(
        class_script("#b", "on"),
        "(function() { var el = document.querySelector(\"#b\"); if (!el) return false; return el.classList.contains(\"on\"); })()"
    );
    assert_eq!(
        css_script("#b", "color"),
        "(function() { var el = document.querySelector(\"#b\"); if (!el) return ''; var cs = window.getComputedStyle(el); return cs[\"color\"] || ''; })()"
    );
}
