use turbosheet::reporters::types::{
    AggregatedTestResult, ReporterType, TestCaseResult, TestResult, TestStatus, format_timestamp,
    parse_reporters, summary_text, chrono_now,
};
use turbosheet::reporters::dot::DotReporter;
use turbosheet::reporters::line::LineReporter;
use turbosheet::reporters::list::ListReporter;
use turbosheet::reporters::github::{GithubReporter, escape_gha};
use turbosheet::reporters::junit::{JunitReporter, escape_xml};
use turbosheet::reporters::html::{escape_html, HtmlReporter};
use turbosheet::reporters::types::TestSuiteResult;
use turbosheet::text::push_seconds2;

fn case(title: &str, status: &str, ms: u32, error: Option<&str>) -> TestCaseResult {
    TestCaseResult {
        title: title.to_string(),
        status: status.to_string(),
        duration_ms: ms,
        error: error.map(|e| e.to_string()),
        retry: 0,
        screenshot_paths: vec![],
        trace_data: None,
    }
}

fn result(name: &str, status: TestStatus, ms: u32, error: Option<&str>) -> TestResult {
    TestResult {
        name: name.to_string(),
        status,
        duration_ms: ms,
        error_message: error.map(|e| e.to_string()),
        retries: 1,
        screenshot_paths: Some(vec!["shot.png".to_string()]),
        trace_data: None,
    }
}

#[test]
fn reporter_names_round_trip() {
    for t in [ReporterType::Dot, ReporterType::Line, ReporterType::List, ReporterType::Json,
              ReporterType::Junit, ReporterType::Html, ReporterType::Github] {
        assert_eq!(ReporterType::from_name(&t.name()), Some(t));
    }
    assert_eq!(ReporterType::default(), ReporterType::List);
    assert_eq!(ReporterType::from_name("DOT"), None);
}

#[test]
fn parse_reporters_trims_lowercases_and_drops_unknown() {
    assert_eq!(
        parse_reporters(" Dot, junit ,nope,,HTML"),
        vec![ReporterType::Dot, ReporterType::Junit, ReporterType::Html]
    );
    assert_eq!(parse_reporters(""), vec![]);
}

#[test]
fn aggregate_counts_and_entries() {
    let a = AggregatedTestResult::from_test_results_at(
        vec![
            result("a", TestStatus::Passed, 100, None),
            result("b", TestStatus::Failed, 200, Some("boom")),
            result("c", TestStatus::Timeout, 300, None),
            result("d", TestStatus::Skipped, 0, None),
        ],
        "123.456Z".to_string(),
    );
    assert_eq!((a.passes, a.failures, a.skipped, a.duration_ms), (1, 2, 1, 600));
    assert_eq!(a.tests.len(), 4);
    assert_eq!(a.tests[2].status, "timeout");
    assert_eq!(a.tests[1].error.as_deref(), Some("boom"));
    assert_eq!(a.tests[0].screenshot_paths, vec!["shot.png".to_string()]);
    assert_eq!(a.suites.len(), 1);
    assert_eq!(a.suites[0].name, "Default Suite");
    assert_eq!(a.suites[0].tests.len(), 4);
    assert_eq!(a.suites[0].duration_ms, 600);
    assert_eq!(a.timestamp, "123.456Z");
}

#[test]
fn timestamps() {
    assert_eq!(format_timestamp(1700000000, 7), "1700000000.007Z");
    let now = chrono_now();
    assert!(now.ends_with('Z'));
    assert_eq!(now.as_bytes()[now.len() - 5], b'.');
}

#[test]
fn dot_output() {
    let rs = vec![case("a", "passed", 1, None), case("b", "failed", 1, None), case("c", "skipped", 1, None), case("d", "timeout", 1, None)];
    assert_eq!(DotReporter::write(&rs), ".F-?");
    assert_eq!(DotReporter::write_single(&rs[1]), "F");
}

#[test]
fn line_output_matches_duration_debug() {
    let rs = vec![case("ok", "passed", 1500, None), case("bad", "failed", 42, Some("first\nsecond"))];
    let expected = format!(
        "\u{2713} ok ({:?})\n\u{2717} bad ({:?}) - first\n",
        std::time::Duration::from_millis(1500),
        std::time::Duration::from_millis(42)
    );
    assert_eq!(LineReporter::write(&rs), expected);
    for ms in [0u32, 1, 999, 1000, 1001, 1010, 1100, 61_234, 4_000_000] {
        let c = case("t", "skipped", ms, None);
        assert_eq!(LineReporter::write_single(&c), format!("- t ({:?})\n", std::time::Duration::from_millis(ms as u64)));
    }
}

#[test]
fn list_output() {
    let failed = case("bad", "failed", 7, Some("line one\r\nline two\n"));
    assert_eq!(ListReporter::write_single(&failed), "    \u{2717} bad (7ms)\n      line one\n      line two\n");
    let passed = case("ok", "passed", 3, Some("ignored"));
    assert_eq!(ListReporter::write_single(&passed), "    \u{2713} ok (3ms)\n");
    assert_eq!(ListReporter::write(&[passed.clone(), case("s", "skipped", 0, None)]), "    \u{2713} ok (3ms)\n    - s (0ms)\n");
}

#[test]
fn github_annotations() {
    let mut a = AggregatedTestResult::from_test_results_at(vec![], "0.000Z".to_string());
    a.tests = vec![case("t1", "failed", 1, Some("a\nb\rc")), case("t2", "passed", 1, None), case("t3", "failed", 1, None)];
    assert_eq!(
        GithubReporter::write(&a),
        "::error title=Test Failure::t1,t1::a%0Ab%0Dc\n::error title=Test Failure::t3,t3::Test failed\n"
    );
    assert_eq!(escape_gha("x\r\ny"), "x%0D%0Ay");
}

#[test]
fn junit_document() {
    let a = AggregatedTestResult::from_test_results_at(
        vec![result("a<b", TestStatus::Passed, 1234, None), result("c", TestStatus::Failed, 5, Some("x & 'y'"))],
        "0.000Z".to_string(),
    );
    let expected = [
        "<?xml version=\"1.0\" encoding=\"UTF-8\"?>",
        "<testsuites name=\"TurboSheet\" failures=\"1\" tests=\"2\" time=\"1.239\">",
        "  <testsuite name=\"Default Suite\" failures=\"1\" tests=\"2\" time=\"1.239\">",
        "    <testcase name=\"a&lt;b\" classname=\"tsheet.tests\" time=\"1.234\" />",
        "    <testcase name=\"c\" classname=\"tsheet.tests\" time=\"0.005\">",
        "      <failure message=\"test failed\">x &amp; &apos;y&apos;</failure>",
        "    </testcase>",
        "  </testsuite>",
        "</testsuites>",
        "",
    ]
    .join("\n");
    assert_eq!(JunitReporter::write(&a), expected);
    assert_eq!(format!("{:.3}", 1239u32 as f64 / 1000.0), "1.239");
}

#[test]
fn escapes() {
    assert_eq!(escape_xml("<a href=\"x\">&'</a>"), "&lt;a href=&quot;x&quot;&gt;&amp;&apos;&lt;/a&gt;");
    assert_eq!(escape_html("<b>\"&'</b>"), "&lt;b&gt;&quot;&amp;'&lt;/b&gt;");
}

#[test]
fn summary_line() {
    let a = AggregatedTestResult::from_test_results_at(
        vec![result("a", TestStatus::Passed, 2500, None)],
        "0.000Z".to_string(),
    );
    assert_eq!(summary_text(&a), format!("  1 passed, 0 failed, 0 skipped ({:?})", std::time::Duration::from_millis(2500)));
}

fn seconds2(ms: u32) -> String {
    let mut v = Vec::new();
    push_seconds2(&mut v, ms);
    v.into_iter().collect()
}

#[test]
fn two_decimal_seconds_agree_with_float_formatting() {
    let mut checked: Vec<u32> = (0..=120_000).collect();
    checked.extend((0..=40_000u32).map(|k| k * 125));
    checked.extend((0..=20_000u32).map(|k| 1_000_000_005 + k * 10));
    checked.extend([u32::MAX, u32::MAX - 5, 4_294_967_285, 2_147_483_645]);
    for ms in checked {
        assert_eq!(seconds2(ms), format!("{:.2}", ms as f64 / 1000.0), "ms = {}", ms);
    }
}

fn traced(title: &str, status: &str, ms: u32, trace: Option<&str>) -> TestCaseResult {
    TestCaseResult { trace_data: trace.map(|t| t.to_string()), ..case(title, status, ms, None) }
}

#[test]
fn html_page() {
    let ok = TestCaseResult { screenshot_paths: vec!["a\"b.png".to_string(), "c.png".to_string()], ..case("ok <1>", "passed", 1234, None) };
    let bad = TestCaseResult { trace_data: Some("{\"e\":1}".to_string()), ..case("bad", "failed", 5, Some("boom & <x>")) };
    let skip = case("later", "skipped", 0, None);
    let a = AggregatedTestResult {
        suites: vec![TestSuiteResult {
            name: "Suite <A>".to_string(),
            tests: vec![ok.clone(), bad.clone(), skip.clone()],
            duration_ms: 1239,
            error_message: None,
        }],
        tests: vec![ok, bad, skip, traced("plain fail", "failed", 1, None), traced("t2", "failed", 2, Some("x"))],
        passes: 1,
        failures: 1,
        skipped: 1,
        duration_ms: 1239,
        timestamp: "2024-01-02T03:04:05.006Z".to_string(),
    };
    let page = HtmlReporter::write(&a);
    assert!(page.starts_with("<!DOCTYPE html>\n<html lang=\"en\">\n<head>\n"));
    assert!(page.ends_with("  </script>\n</body>\n</html>\n"));
    assert!(page.contains("    <p>Executed at: 2024-01-02T03:04:05.006Z</p>\n"));
    assert!(page.contains("      <div class=\"stat-value passed\">1</div>\n"));
    assert!(page.contains("      <div class=\"stat-value\">1.24s</div>\n"));
    assert!(page.contains(
        "  <script>window.traceData = [{\"data\":\"{\\\"e\\\":1}\",\"name\":\"bad\"},{\"data\":\"x\",\"name\":\"t2\"}];</script>\n"
    ));
    assert!(page.contains("      <span>Suite &lt;A&gt;</span>\n      <span class=\"suite-stats\">1 passed, 1 failed</span>\n"));
    assert!(page.contains("    <div class=\"test\" data-status=\"passed\" onclick=\"toggleError(this)\">\n      <div class=\"test-icon passed\">\u{2713}</div>\n"));
    assert!(page.contains("<div class=\"test-name-text\">ok &lt;1&gt;</div>"));
    assert!(page.contains(
        "          <img src=\"a&quot;b.png\" class=\"screenshot-thumb\" onclick=\"viewScreenshot('a&quot;b.png')\" alt=\"Screenshot 1\"/>\n"
    ));
    assert!(page.contains("alt=\"Screenshot 2\"/>\n        </div>\n"));
    assert!(page.contains("openTraceViewer('bad')\">View Trace</a>\n        <span class=\"test-duration\">0.01s</span>"));
    assert!(page.contains("    <div class=\"error-message\" style=\"display: none;\">boom &amp; &lt;x&gt;\n    </div>\n"));
    assert!(page.contains("<div class=\"test-icon skipped\">-</div>"));
    assert!(page.contains("<span class=\"test-duration\">1.23s</span>"));
}

#[test]
fn html_page_without_traces() {
    let a = AggregatedTestResult::from_test_results_at(vec![], "t".to_string());
    let page = HtmlReporter::write(&a);
    assert!(page.contains("  <script>window.traceData = null;</script>\n"));
    assert!(page.contains("      <div class=\"stat-value\">0.00s</div>\n"));
}

#[test]
fn aggregation_stamps_the_current_time() {
    let a = AggregatedTestResult::from_test_results(vec![result("a", TestStatus::Passed, 5, None)]);
    assert_eq!(a.passes, 1);
    assert!(a.timestamp.ends_with('Z'));
    assert!(a.timestamp.len() >= 5);
    assert_eq!(turbosheet::text::decimal_string(1234567), "1234567");
}
