use vstd::prelude::*;
use crate::reporters::types::{AggregatedTestResult, TestCaseResult, TestCaseView, cases_view};
use crate::text::{push_str, string_from_chars, str_eq, replace_spec, replace_str};

verus! {

/// Writes GitHub Actions annotations for failed tests.
pub struct GithubReporter;

/// A message with its line breaks escaped for a workflow command: `\n`
/// as `%0A`, then `\r` as `%0D`.
pub open spec fn escape_gha_spec(s: Seq<char>) -> Seq<char> {
    replace_spec(replace_spec(s, "\n"@, "%0A"@), "\r"@, "%0D"@)
}

/// The annotation of a failed test: an error command titled "Test
/// Failure", the test's title twice, and its escaped error message
/// ("Test failed" when it has none).
pub open spec fn annotation_spec(t: TestCaseView) -> Seq<char> {
    let msg = match t.error {
        Some(e) => e,
        None => "Test failed"@,
    };
    "::error title=Test Failure::"@ + t.title + ","@ + t.title + "::"@ + escape_gha_spec(msg) + "\n"@
}

/// The annotations of the failed tests, in order.
pub open spec fn github_output(ts: Seq<TestCaseView>) -> Seq<char>
    decreases ts.len(),
{
    if ts.len() == 0 {
        Seq::empty()
    } else if ts.last().status == "failed"@ {
        github_output(ts.drop_last()) + annotation_spec(ts.last())
    } else {
        github_output(ts.drop_last())
    }
}

/// Escapes `s` as `escape_gha_spec` describes.
pub fn escape_gha(s: &str) -> (r: String)
    ensures
        r@ == escape_gha_spec(s@),
{
    let a = replace_str(s, "\n", "%0A");
    replace_str(a.as_str(), "\r", "%0D")
}

impl GithubReporter {
    /// One annotation per failed test of the run.
    pub fn write(result: &AggregatedTestResult) -> (s: String)
        ensures
            s@ == github_output(cases_view(result.tests@)),
    {
        let tests = &result.tests;
        let mut out: Vec<char> = Vec::new();
        let mut i: usize = 0;
        while i < tests.len()
            invariant
                i <= tests@.len(),
                out@ == github_output(cases_view(tests@.take(i as int))),
            decreases tests.len() - i,
        {
            if str_eq(tests[i].status.as_str(), "failed") {
                Self::write_annotation(&mut out, &tests[i]);
            }
            assert(cases_view(tests@.take(i + 1)).drop_last() =~= cases_view(tests@.take(i as int)));
            i = i + 1;
        }
        assert(tests@.take(tests@.len() as int) =~= tests@);
        string_from_chars(&out)
    }

    fn write_annotation(output: &mut Vec<char>, test: &TestCaseResult)
        ensures
            final(output)@ == old(output)@ + annotation_spec(test@),
    {
        let escaped = match &test.error {
            Some(e) => escape_gha(e.as_str()),
            None => escape_gha("Test failed"),
        };
        push_str(output, "::error title=Test Failure::");
        push_str(output, test.title.as_str());
        push_str(output, ",");
        push_str(output, test.title.as_str());
        push_str(output, "::");
        push_str(output, escaped.as_str());
        push_str(output, "\n");
        assert(final(output)@ =~= old(output)@ + annotation_spec(test@));
    }
}

} // verus!
