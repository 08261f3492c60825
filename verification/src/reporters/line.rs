use vstd::prelude::*;
use crate::reporters::types::{TestCaseResult, TestCaseView, cases_view, status_symbol, push_status_symbol};
use crate::text::{push_str, string_from_chars, first_line_spec, first_line, append_chars, duration_debug_spec, push_duration_debug};

verus! {

/// Shows each test on a line of its own.
pub struct LineReporter;

/// What follows a test's line when it has an error: ` - ` and the
/// error's first line.
pub open spec fn error_suffix(e: Option<Seq<char>>) -> Seq<char> {
    match e {
        Some(e) => " - "@ + first_line_spec(e),
        None => Seq::empty(),
    }
}

/// A test's line: its symbol, title, duration as `Duration`'s `{:?}`
/// writes it in brackets, the error suffix and a newline.
pub open spec fn line_entry(t: TestCaseView) -> Seq<char> {
    status_symbol(t.status) + " "@ + t.title + " ("@ + duration_debug_spec(t.duration_ms as nat) + ")"@
        + error_suffix(t.error) + "\n"@
}

/// The lines of the tests, in order.
pub open spec fn line_output(ts: Seq<TestCaseView>) -> Seq<char>
    decreases ts.len(),
{
    if ts.len() == 0 {
        Seq::empty()
    } else {
        line_output(ts.drop_last()) + line_entry(ts.last())
    }
}

impl LineReporter {
    /// The lines of all results, one after another.
    pub fn write(results: &[TestCaseResult]) -> (s: String)
        ensures
            s@ == line_output(cases_view(results@)),
    {
        let mut out: Vec<char> = Vec::new();
        let mut i: usize = 0;
        while i < results.len()
            invariant
                i <= results@.len(),
                out@ == line_output(cases_view(results@.take(i as int))),
            decreases results.len() - i,
        {
            let one = Self::write_single(&results[i]);
            push_str(&mut out, one.as_str());
            assert(cases_view(results@.take(i + 1)).drop_last() =~= cases_view(results@.take(i as int)));
            i = i + 1;
        }
        assert(results@.take(results@.len() as int) =~= results@);
        string_from_chars(&out)
    }

    /// The line of one result.
    pub fn write_single(result: &TestCaseResult) -> (s: String)
        ensures
            s@ == line_entry(result@),
    {
        let mut out: Vec<char> = Vec::new();
        push_status_symbol(&mut out, result.status.as_str());
        push_str(&mut out, " ");
        push_str(&mut out, result.title.as_str());
        push_str(&mut out, " (");
        push_duration_debug(&mut out, result.duration_ms as u64);
        push_str(&mut out, ")");
        match &result.error {
            Some(err) => {
                push_str(&mut out, " - ");
                let fl = first_line(err.as_str());
                append_chars(&mut out, &fl);
            },
            None => {},
        }
        push_str(&mut out, "\n");
        assert(out@ =~= line_entry(result@));
        string_from_chars(&out)
    }
}

} // verus!
