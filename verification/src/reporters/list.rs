use vstd::prelude::*;
use crate::reporters::types::{TestCaseResult, TestCaseView, cases_view, status_symbol, push_status_symbol};
use crate::text::{push_str, string_from_chars, str_eq, decimal_spec, push_decimal, lines_spec, lines_of_chars, chars_of, append_chars};

verus! {

/// Shows each test on an indented line, with the error of a failed test
/// below it.
pub struct ListReporter;

/// Each line indented by six spaces and ended by a newline.
pub open spec fn indented_lines(ls: Seq<Seq<char>>) -> Seq<char>
    decreases ls.len(),
{
    if ls.len() == 0 {
        Seq::empty()
    } else {
        indented_lines(ls.drop_last()) + "      "@ + ls.last() + "\n"@
    }
}

/// The error lines shown under a test: those of its error when it failed,
/// else none.
pub open spec fn error_block(t: TestCaseView) -> Seq<char> {
    if t.status == "failed"@ {
        match t.error {
            Some(e) => indented_lines(lines_spec(e)),
            None => Seq::empty(),
        }
    } else {
        Seq::empty()
    }
}

/// A test's entry: four spaces, its symbol, title, duration in
/// milliseconds, a newline, then its error block.
pub open spec fn list_entry(t: TestCaseView) -> Seq<char> {
    "    "@ + status_symbol(t.status) + " "@ + t.title + " ("@ + decimal_spec(t.duration_ms as nat) + "ms)\n"@
        + error_block(t)
}

/// The entries of the tests, in order.
pub open spec fn list_output(ts: Seq<TestCaseView>) -> Seq<char>
    decreases ts.len(),
{
    if ts.len() == 0 {
        Seq::empty()
    } else {
        list_output(ts.drop_last()) + list_entry(ts.last())
    }
}

impl ListReporter {
    /// The entries of all results, one after another.
    pub fn write(results: &[TestCaseResult]) -> (s: String)
        ensures
            s@ == list_output(cases_view(results@)),
    {
        let mut out: Vec<char> = Vec::new();
        let mut i: usize = 0;
        while i < results.len()
            invariant
                i <= results@.len(),
                out@ == list_output(cases_view(results@.take(i as int))),
            decreases results.len() - i,
        {
            let one = Self::write_single(&results[i]);
            push_str(&mut out, one.as_str());
            assert(cases_view(results@.take(i + 1)).drop_last() =~= cases_view(results@.take(i as int)));
            i = i + 1;
        }
        assert(results@.take(results@.len() as int) =~= results@);
        string_from_chars(&out)
    }

    /// The entry of one result.
    pub fn write_single(result: &TestCaseResult) -> (s: String)
        ensures
            s@ == list_entry(result@),
    {
        let mut out: Vec<char> = Vec::new();
        push_str(&mut out, "    ");
        push_status_symbol(&mut out, result.status.as_str());
        push_str(&mut out, " ");
        push_str(&mut out, result.title.as_str());
        push_str(&mut out, " (");
        push_decimal(&mut out, result.duration_ms as u64);
        push_str(&mut out, "ms)\n");
        let ghost head = out@;
        if str_eq(result.status.as_str(), "failed") {
            match &result.error {
                Some(err) => {
                    let ls = lines_of_chars(&chars_of(err.as_str()));
                    let ghost l = lines_spec(err@);
                    let mut j: usize = 0;
                    while j < ls.len()
                        invariant
                            j <= ls@.len(),
                            ls@.len() == l.len(),
                            forall|k: int| 0 <= k < ls@.len() ==> #[trigger] ls@[k]@ == l[k],
                            out@ == head + indented_lines(l.take(j as int)),
                        decreases ls.len() - j,
                    {
                        push_str(&mut out, "      ");
                        append_chars(&mut out, &ls[j]);
                        push_str(&mut out, "\n");
                        assert(l.take(j + 1).drop_last() =~= l.take(j as int));
                        j = j + 1;
                        assert(out@ =~= head + indented_lines(l.take(j as int)));
                    }
                    assert(l.take(l.len() as int) =~= l);
                },
                None => {},
            }
        }
        assert(out@ =~= list_entry(result@));
        string_from_chars(&out)
    }
}

} // verus!
