use vstd::prelude::*;
use crate::reporters::types::{TestCaseResult, TestCaseView, cases_view};
use crate::text::{str_eq, push_str, string_from_chars};

verus! {

/// Shows each test as one character.
pub struct DotReporter;

/// The character a status is shown by: `.` passed, `F` failed, `-`
/// skipped, `?` anything else.
pub open spec fn dot_symbol(status: Seq<char>) -> Seq<char> {
    if status == "passed"@ {
        "."@
    } else if status == "failed"@ {
        "F"@
    } else if status == "skipped"@ {
        "-"@
    } else {
        "?"@
    }
}

/// The symbols of the tests, in order.
pub open spec fn dot_output(ts: Seq<TestCaseView>) -> Seq<char>
    decreases ts.len(),
{
    if ts.len() == 0 {
        Seq::empty()
    } else {
        dot_output(ts.drop_last()) + dot_symbol(ts.last().status)
    }
}

impl DotReporter {
    /// The symbols of all results, one after another.
    pub fn write(results: &[TestCaseResult]) -> (s: String)
        ensures
            s@ == dot_output(cases_view(results@)),
    {
        let mut out: Vec<char> = Vec::new();
        let mut i: usize = 0;
        while i < results.len()
            invariant
                i <= results@.len(),
                out@ == dot_output(cases_view(results@.take(i as int))),
            decreases results.len() - i,
        {
            let one = Self::write_single(&results[i]);
            push_str(&mut out, one.as_str());
            assert(cases_view(results@.take(i + 1)).drop_last() =~= cases_view(results@.take(i as int)));
            i = i + 1;
        }
        assert(results@.take(results@.len() as int) =~= results@);
        string_from_chars(&out)
    }

    /// The symbol of one result.
    pub fn write_single(result: &TestCaseResult) -> (s: String)
        ensures
            s@ == dot_symbol(result.status@),
    {
        let st = result.status.as_str();
        if str_eq(st, "passed") {
            String::from_str(".")
        } else if str_eq(st, "failed") {
            String::from_str("F")
        } else if str_eq(st, "skipped") {
            String::from_str("-")
        } else {
            String::from_str("?")
        }
    }
}

} // verus!
