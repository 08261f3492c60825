use vstd::prelude::*;
use crate::reporters::types::{
    AggregatedTestResult, TestSuiteResult, TestCaseResult, TestCaseView, TestSuiteView, cases_view, suites_view, TestResult,
    TestStatus, count_status, law_results_counted_once,
};
use crate::text::{lemma_replace_char_members, push_str, string_from_chars, str_eq, replace_spec, replace_str, decimal_spec, push_decimal, seconds3_spec, push_seconds3};

verus! {

/// Writes a run as a JUnit XML document.
pub struct JunitReporter;

/// Text made safe for XML: `&`, `<`, `>`, `"` and `'` replaced by their
/// entities, in that order.
pub open spec fn escape_xml_spec(s: Seq<char>) -> Seq<char> {
    replace_spec(
        replace_spec(replace_spec(replace_spec(replace_spec(s, "&"@, "&amp;"@), "<"@, "&lt;"@), ">"@, "&gt;"@), "\""@, "&quot;"@),
        "'"@,
        "&apos;"@,
    )
}

/// Escaped text holds no `<`, `>`, `"` or `'`: embedded in a document it
/// can open or close neither an element nor an attribute value.
pub proof fn law_escaped_xml_has_no_markup(s: Seq<char>)
    ensures
        !escape_xml_spec(s).contains('<'),
        !escape_xml_spec(s).contains('>'),
        !escape_xml_spec(s).contains('"'),
        !escape_xml_spec(s).contains('\''),
{
    reveal_strlit("&");
    reveal_strlit("<");
    reveal_strlit(">");
    reveal_strlit("\"");
    reveal_strlit("'");
    reveal_strlit("&amp;");
    reveal_strlit("&lt;");
    reveal_strlit("&gt;");
    reveal_strlit("&quot;");
    reveal_strlit("&apos;");
    let s1 = replace_spec(s, "&"@, "&amp;"@);
    let s2 = replace_spec(s1, "<"@, "&lt;"@);
    let s3 = replace_spec(s2, ">"@, "&gt;"@);
    let s4 = replace_spec(s3, "\""@, "&quot;"@);
    assert("<"@ =~= seq!['<']);
    assert(">"@ =~= seq!['>']);
    assert("\""@ =~= seq!['"']);
    assert("'"@ =~= seq!['\'']);
    assert("&lt;"@ =~= seq!['&', 'l', 't', ';']);
    assert("&gt;"@ =~= seq!['&', 'g', 't', ';']);
    assert("&quot;"@ =~= seq!['&', 'q', 'u', 'o', 't', ';']);
    assert("&apos;"@ =~= seq!['&', 'a', 'p', 'o', 's', ';']);
    assert(!"&lt;"@.contains('<'));
    assert(!"&gt;"@.contains('<') && !"&gt;"@.contains('>'));
    assert(!"&quot;"@.contains('<') && !"&quot;"@.contains('>') && !"&quot;"@.contains('"'));
    assert(!"&apos;"@.contains('<') && !"&apos;"@.contains('>') && !"&apos;"@.contains('"')
        && !"&apos;"@.contains('\''));
    lemma_replace_char_members(s1, '<', "&lt;"@, '<');
    lemma_replace_char_members(s2, '>', "&gt;"@, '<');
    lemma_replace_char_members(s2, '>', "&gt;"@, '>');
    lemma_replace_char_members(s3, '"', "&quot;"@, '<');
    lemma_replace_char_members(s3, '"', "&quot;"@, '>');
    lemma_replace_char_members(s3, '"', "&quot;"@, '"');
    lemma_replace_char_members(s4, '\'', "&apos;"@, '<');
    lemma_replace_char_members(s4, '\'', "&apos;"@, '>');
    lemma_replace_char_members(s4, '\'', "&apos;"@, '"');
    lemma_replace_char_members(s4, '\'', "&apos;"@, '\'');
}

/// How many of the tests failed.
pub open spec fn failed_count(ts: Seq<TestCaseView>) -> nat
    decreases ts.len(),
{
    if ts.len() == 0 {
        0
    } else {
        failed_count(ts.drop_last()) + (if ts.last().status == "failed"@ { 1nat } else { 0nat })
    }
}

/// The element of one test: its escaped title, the class name
/// `tsheet.tests` and its time in seconds; a failure element with the
/// escaped error inside when it has one, else closed at once.
pub open spec fn testcase_xml(t: TestCaseView) -> Seq<char> {
    "    <testcase name=\""@ + escape_xml_spec(t.title) + "\" classname=\"tsheet.tests\" time=\""@
        + seconds3_spec(t.duration_ms as nat) + "\""@ + match t.error {
        Some(e) => ">\n"@ + "      <failure message=\"test failed\">"@ + escape_xml_spec(e) + "</failure>\n"@
            + "    </testcase>\n"@,
        None => " />\n"@,
    }
}

/// The elements of the tests, in order.
pub open spec fn testcases_xml(ts: Seq<TestCaseView>) -> Seq<char>
    decreases ts.len(),
{
    if ts.len() == 0 {
        Seq::empty()
    } else {
        testcases_xml(ts.drop_last()) + testcase_xml(ts.last())
    }
}

/// The element of one suite: its escaped name, failures, number of tests
/// and time, its tests inside.
pub open spec fn suite_xml(s: TestSuiteView) -> Seq<char> {
    "  <testsuite name=\""@ + escape_xml_spec(s.name) + "\" failures=\""@ + decimal_spec(failed_count(s.tests))
        + "\" tests=\""@ + decimal_spec(s.tests.len()) + "\" time=\""@ + seconds3_spec(s.duration_ms as nat)
        + "\">\n"@ + testcases_xml(s.tests) + "  </testsuite>\n"@
}

/// The elements of the suites, in order.
pub open spec fn suites_xml(ss: Seq<TestSuiteView>) -> Seq<char>
    decreases ss.len(),
{
    if ss.len() == 0 {
        Seq::empty()
    } else {
        suites_xml(ss.drop_last()) + suite_xml(ss.last())
    }
}

/// The document: the XML declaration, then the root element with the
/// failures, the number of tests (passed, failed and skipped) and the time
/// in seconds, holding the suites.
pub open spec fn junit_spec(passes: nat, failures: nat, skipped: nat, duration_ms: nat, ss: Seq<TestSuiteView>) -> Seq<char> {
    "<?xml version=\"1.0\" encoding=\"UTF-8\"?>\n"@ + "<testsuites name=\"TurboSheet\" failures=\""@
        + decimal_spec(failures) + "\" tests=\""@ + decimal_spec(passes + failures + skipped) + "\" time=\""@
        + seconds3_spec(duration_ms) + "\">\n"@ + suites_xml(ss) + "</testsuites>\n"@
}

/// Escapes `s` as `escape_xml_spec` describes.
pub fn escape_xml(s: &str) -> (r: String)
    ensures
        r@ == escape_xml_spec(s@),
{
    let a = replace_str(s, "&", "&amp;");
    let b = replace_str(a.as_str(), "<", "&lt;");
    let c = replace_str(b.as_str(), ">", "&gt;");
    let d = replace_str(c.as_str(), "\"", "&quot;");
    replace_str(d.as_str(), "'", "&apos;")
}

impl JunitReporter {
    /// The JUnit document of a run (see `junit_spec`).
    pub fn write(result: &AggregatedTestResult) -> (s: String)
        requires
            result.passes + result.failures + result.skipped <= u32::MAX,
        ensures
            s@ == junit_spec(result.passes as nat, result.failures as nat, result.skipped as nat,
                result.duration_ms as nat, suites_view(result.suites@)),
    {
        let mut out: Vec<char> = Vec::new();
        push_str(&mut out, "<?xml version=\"1.0\" encoding=\"UTF-8\"?>\n");
        push_str(&mut out, "<testsuites name=\"TurboSheet\" failures=\"");
        push_decimal(&mut out, result.failures as u64);
        push_str(&mut out, "\" tests=\"");
        let total: u32 = result.passes + result.failures + result.skipped;
        push_decimal(&mut out, total as u64);
        push_str(&mut out, "\" time=\"");
        push_seconds3(&mut out, result.duration_ms as u64);
        push_str(&mut out, "\">\n");
        let ghost head = out@;
        let suites = &result.suites;
        let mut i: usize = 0;
        while i < suites.len()
            invariant
                i <= suites@.len(),
                out@ == head + suites_xml(suites_view(suites@.take(i as int))),
            decreases suites.len() - i,
        {
            Self::write_suite(&mut out, &suites[i]);
            assert(suites_view(suites@.take(i + 1)).drop_last() =~= suites_view(suites@.take(i as int)));
            i = i + 1;
            assert(out@ =~= head + suites_xml(suites_view(suites@.take(i as int))));
        }
        assert(suites@.take(suites@.len() as int) =~= suites@);
        push_str(&mut out, "</testsuites>\n");
        assert(out@ =~= junit_spec(result.passes as nat, result.failures as nat, result.skipped as nat,
            result.duration_ms as nat, suites_view(result.suites@)));
        string_from_chars(&out)
    }

    fn write_suite(output: &mut Vec<char>, suite: &TestSuiteResult)
        ensures
            final(output)@ == old(output)@ + suite_xml(suite@),
    {
        let tests = &suite.tests;
        let mut failures: usize = 0;
        let mut i: usize = 0;
        while i < tests.len()
            invariant
                i <= tests@.len(),
                failures == failed_count(cases_view(tests@.take(i as int))),
                failures <= i,
            decreases tests.len() - i,
        {
            if str_eq(tests[i].status.as_str(), "failed") {
                failures = failures + 1;
            }
            assert(cases_view(tests@.take(i + 1)).drop_last() =~= cases_view(tests@.take(i as int)));
            i = i + 1;
        }
        assert(tests@.take(tests@.len() as int) =~= tests@);
        push_str(output, "  <testsuite name=\"");
        let name = escape_xml(suite.name.as_str());
        push_str(output, name.as_str());
        push_str(output, "\" failures=\"");
        push_decimal(output, failures as u64);
        push_str(output, "\" tests=\"");
        push_decimal(output, tests.len() as u64);
        push_str(output, "\" time=\"");
        push_seconds3(output, suite.duration_ms as u64);
        push_str(output, "\">\n");
        let ghost head = output@;
        let mut j: usize = 0;
        while j < tests.len()
            invariant
                j <= tests@.len(),
                output@ == head + testcases_xml(cases_view(tests@.take(j as int))),
            decreases tests.len() - j,
        {
            Self::write_testcase(output, &tests[j]);
            assert(cases_view(tests@.take(j + 1)).drop_last() =~= cases_view(tests@.take(j as int)));
            j = j + 1;
            assert(output@ =~= head + testcases_xml(cases_view(tests@.take(j as int))));
        }
        push_str(output, "  </testsuite>\n");
        assert(final(output)@ =~= old(output)@ + suite_xml(suite@));
    }

    fn write_testcase(output: &mut Vec<char>, test: &TestCaseResult)
        ensures
            final(output)@ == old(output)@ + testcase_xml(test@),
    {
        push_str(output, "    <testcase name=\"");
        let title = escape_xml(test.title.as_str());
        push_str(output, title.as_str());
        push_str(output, "\" classname=\"tsheet.tests\" time=\"");
        push_seconds3(output, test.duration_ms as u64);
        push_str(output, "\"");
        match &test.error {
            Some(e) => {
                push_str(output, ">\n");
                push_str(output, "      <failure message=\"test failed\">");
                let esc = escape_xml(e.as_str());
                push_str(output, esc.as_str());
                push_str(output, "</failure>\n");
                push_str(output, "    </testcase>\n");
            },
            None => {
                push_str(output, " />\n");
            },
        }
        assert(final(output)@ =~= old(output)@ + testcase_xml(test@));
    }
}

/// The opening of a JUnit document up to the root's time: the XML
/// declaration, then the root element with `failures` failures among
/// `tests` tests.
pub open spec fn junit_root_opening(failures: nat, tests: nat) -> Seq<char> {
    "<?xml version=\"1.0\" encoding=\"UTF-8\"?>\n"@ + "<testsuites name=\"TurboSheet\" failures=\""@
        + decimal_spec(failures) + "\" tests=\""@ + decimal_spec(tests) + "\" time=\""@
}

/// The root element of the document of a run counts every result once:
/// with the passes, failures (failed or timed out) and skips counted from
/// the results, its `tests` is the number of results, skipped ones
/// included, and its `failures` the failed and timed-out ones.
pub proof fn law_junit_counts_every_result(rs: Seq<TestResult>, duration_ms: nat, ss: Seq<TestSuiteView>)
    ensures
        junit_spec(
            count_status(rs, TestStatus::Passed),
            count_status(rs, TestStatus::Failed) + count_status(rs, TestStatus::Timeout),
            count_status(rs, TestStatus::Skipped),
            duration_ms,
            ss,
        ) == junit_root_opening(
            count_status(rs, TestStatus::Failed) + count_status(rs, TestStatus::Timeout),
            rs.len(),
        ) + seconds3_spec(duration_ms) + "\">\n"@ + suites_xml(ss) + "</testsuites>\n"@,
{
    law_results_counted_once(rs);
}

} // verus!
