use vstd::prelude::*;
use crate::clock::unix_secs_and_millis;
use crate::text::{chars_of, chars_eq, split_spec, split_chars, trim_spec, trim_chars, string_from_chars, opt_view, strings_view, decimal_spec, pad3_spec, push_decimal, push_pad3, push_str, str_eq, duration_debug_spec, push_duration_debug};
use crate::engine::keys::{lowercase_of, to_lowercase};
use crate::text::{all_ascii, ascii_lower_char, lemma_split_ascii, lemma_trim_ascii, lemma_find_char, trim_start_spec, trim_end_spec, find_char_spec};

verus! {

/// The formats test results can be reported in.
#[derive(PartialEq, Eq, Structural, Clone, Copy, Debug)]
pub enum ReporterType {
    Dot,
    Line,
    List,
    Json,
    Junit,
    Html,
    Github,
}

/// The lowercase name of a reporter type.
pub open spec fn reporter_name(t: ReporterType) -> Seq<char> {
    match t {
        ReporterType::Dot => "dot"@,
        ReporterType::Line => "line"@,
        ReporterType::List => "list"@,
        ReporterType::Json => "json"@,
        ReporterType::Junit => "junit"@,
        ReporterType::Html => "html"@,
        ReporterType::Github => "github"@,
    }
}

/// The reporter type with the given name, if any.
pub open spec fn reporter_of_name(s: Seq<char>) -> Option<ReporterType> {
    if s == "dot"@ {
        Some(ReporterType::Dot)
    } else if s == "line"@ {
        Some(ReporterType::Line)
    } else if s == "list"@ {
        Some(ReporterType::List)
    } else if s == "json"@ {
        Some(ReporterType::Json)
    } else if s == "junit"@ {
        Some(ReporterType::Junit)
    } else if s == "html"@ {
        Some(ReporterType::Html)
    } else if s == "github"@ {
        Some(ReporterType::Github)
    } else {
        None
    }
}

impl Default for ReporterType {
    fn default() -> (r: Self)
        ensures
            r == ReporterType::List,
    {
        ReporterType::List
    }
}

impl ReporterType {
    /// The type's name, as it is displayed.
    pub fn name(&self) -> (s: String)
        ensures
            s@ == reporter_name(*self),
    {
        match self {
            ReporterType::Dot => String::from_str("dot"),
            ReporterType::Line => String::from_str("line"),
            ReporterType::List => String::from_str("list"),
            ReporterType::Json => String::from_str("json"),
            ReporterType::Junit => String::from_str("junit"),
            ReporterType::Html => String::from_str("html"),
            ReporterType::Github => String::from_str("github"),
        }
    }

    /// The reporter type whose name is exactly `name`, if any.
    pub fn from_name(name: &str) -> (r: Option<ReporterType>)
        ensures
            r == reporter_of_name(name@),
    {
        let v = chars_of(name);
        if chars_eq(&v, &chars_of("dot")) {
            Some(ReporterType::Dot)
        } else if chars_eq(&v, &chars_of("line")) {
            Some(ReporterType::Line)
        } else if chars_eq(&v, &chars_of("list")) {
            Some(ReporterType::List)
        } else if chars_eq(&v, &chars_of("json")) {
            Some(ReporterType::Json)
        } else if chars_eq(&v, &chars_of("junit")) {
            Some(ReporterType::Junit)
        } else if chars_eq(&v, &chars_of("html")) {
            Some(ReporterType::Html)
        } else if chars_eq(&v, &chars_of("github")) {
            Some(ReporterType::Github)
        } else {
            None
        }
    }
}

/// Which reporter to use, and where it writes.
pub struct ReporterConfig {
    pub reporter_type: ReporterType,
    pub output_path: Option<String>,
}

/// The reporters named in a comma-separated list: each piece trimmed of
/// whitespace and lowercased; unknown names dropped.
pub open spec fn parse_reporters_spec(s: Seq<char>) -> Seq<ReporterType> {
    reporters_of_pieces(split_spec(s, ','))
}

/// The known reporter types among the pieces, in order.
pub open spec fn reporters_of_pieces(p: Seq<Seq<char>>) -> Seq<ReporterType>
    decreases p.len(),
{
    if p.len() == 0 {
        Seq::empty()
    } else {
        match reporter_of_name(lowercase_of(trim_spec(p.last()))) {
            Some(t) => reporters_of_pieces(p.drop_last()).push(t),
            None => reporters_of_pieces(p.drop_last()),
        }
    }
}

/// The known reporter types among the pieces, each read in any case, for
/// ASCII pieces.
pub open spec fn reporters_of_ascii_pieces(p: Seq<Seq<char>>) -> Seq<ReporterType>
    decreases p.len(),
{
    if p.len() == 0 {
        Seq::empty()
    } else {
        match reporter_of_name(trim_spec(p.last()).map_values(|c: char| ascii_lower_char(c))) {
            Some(t) => reporters_of_ascii_pieces(p.drop_last()).push(t),
            None => reporters_of_ascii_pieces(p.drop_last()),
        }
    }
}

/// The reporter types listed in `reporter_str` (see `parse_reporters_spec`);
/// for an ASCII list, the names are read in any case.
pub fn parse_reporters(reporter_str: &str) -> (r: Vec<ReporterType>)
    ensures
        r@ == parse_reporters_spec(reporter_str@),
        all_ascii(reporter_str@) ==> r@ == reporters_of_ascii_pieces(split_spec(reporter_str@, ',')),
{
    let v = chars_of(reporter_str);
    let pieces = split_chars(&v, ',');
    let ghost p = split_spec(reporter_str@, ',');
    let mut r: Vec<ReporterType> = Vec::new();
    let mut i: usize = 0;
    while i < pieces.len()
        invariant
            i <= pieces.len(),
            pieces@.len() == p.len(),
            forall|k: int| 0 <= k < pieces@.len() ==> #[trigger] pieces@[k]@ == p[k],
            r@ == reporters_of_pieces(p.take(i as int)),
            all_ascii(reporter_str@) ==> r@ == reporters_of_ascii_pieces(p.take(i as int)),
            p == split_spec(reporter_str@, ','),
        decreases pieces.len() - i,
    {
        proof {
            if all_ascii(reporter_str@) {
                lemma_split_ascii(reporter_str@, ',');
                assert(all_ascii(p[i as int]));
                lemma_trim_ascii(p[i as int]);
            }
        }
        let t = trim_chars(&pieces[i]);
        let ts = string_from_chars(&t);
        let lowered = to_lowercase(ts.as_str());
        assert(p.take(i + 1).drop_last() =~= p.take(i as int));
        match ReporterType::from_name(lowered.as_str()) {
            Some(rt) => {
                r.push(rt);
            },
            None => {},
        }
        i = i + 1;
    }
    assert(p.take(p.len() as int) =~= p);
    r
}


/// How a test run ended.
#[derive(PartialEq, Eq, Structural, Clone, Copy, Debug)]
pub enum TestStatus {
    Passed,
    Failed,
    Skipped,
    Timeout,
}

/// The lowercase name of a status, as results record it.
pub open spec fn status_name(s: TestStatus) -> Seq<char> {
    match s {
        TestStatus::Passed => "passed"@,
        TestStatus::Failed => "failed"@,
        TestStatus::Skipped => "skipped"@,
        TestStatus::Timeout => "timeout"@,
    }
}

impl TestStatus {
    /// The status's lowercase name.
    pub fn name(&self) -> (s: String)
        ensures
            s@ == status_name(*self),
    {
        match self {
            TestStatus::Passed => String::from_str("passed"),
            TestStatus::Failed => String::from_str("failed"),
            TestStatus::Skipped => String::from_str("skipped"),
            TestStatus::Timeout => String::from_str("timeout"),
        }
    }
}

/// What running one test produced.
pub struct TestResult {
    pub name: String,
    pub status: TestStatus,
    pub duration_ms: u32,
    pub error_message: Option<String>,
    pub retries: u32,
    pub screenshot_paths: Option<Vec<String>>,
    pub trace_data: Option<String>,
}

/// One test's entry in a report.
pub struct TestCaseResult {
    pub title: String,
    pub status: String,
    pub duration_ms: u32,
    pub error: Option<String>,
    pub retry: u32,
    pub screenshot_paths: Vec<String>,
    pub trace_data: Option<String>,
}

/// A named group of test entries.
pub struct TestSuiteResult {
    pub name: String,
    pub tests: Vec<TestCaseResult>,
    pub duration_ms: u32,
    pub error_message: Option<String>,
}

/// The whole run: suites, every test, the counts, the total time and
/// when it was recorded.
pub struct AggregatedTestResult {
    pub suites: Vec<TestSuiteResult>,
    pub tests: Vec<TestCaseResult>,
    pub passes: u32,
    pub failures: u32,
    pub skipped: u32,
    pub duration_ms: u32,
    pub timestamp: String,
}

fn clone_opt_string(o: &Option<String>) -> (r: Option<String>)
    ensures
        r == *o,
{
    match o {
        Some(s) => Some(s.clone()),
        None => None,
    }
}

/// A copy of a list of strings.
pub fn clone_strings(v: &Vec<String>) -> (r: Vec<String>)
    ensures
        r@ == v@,
{
    let mut r: Vec<String> = Vec::new();
    let mut i: usize = 0;
    while i < v.len()
        invariant
            i <= v.len(),
            r@ == v@.take(i as int),
        decreases v.len() - i,
    {
        r.push(v[i].clone());
        i = i + 1;
        assert(r@ =~= v@.take(i as int));
    }
    assert(v@.take(v.len() as int) =~= v@);
    r
}

/// The abstract value of a test entry.
pub struct TestCaseView {
    pub title: Seq<char>,
    pub status: Seq<char>,
    pub duration_ms: u32,
    pub error: Option<Seq<char>>,
    pub retry: u32,
    pub screenshot_paths: Seq<Seq<char>>,
    pub trace_data: Option<Seq<char>>,
}

impl View for TestCaseResult {
    type V = TestCaseView;

    open spec fn view(&self) -> TestCaseView {
        TestCaseView {
            title: self.title@,
            status: self.status@,
            duration_ms: self.duration_ms,
            error: opt_view(self.error),
            retry: self.retry,
            screenshot_paths: strings_view(self.screenshot_paths@),
            trace_data: opt_view(self.trace_data),
        }
    }
}

/// The abstract values of a list of test entries.
pub open spec fn cases_view(v: Seq<TestCaseResult>) -> Seq<TestCaseView> {
    v.map_values(|t: TestCaseResult| t@)
}

impl Clone for TestCaseResult {
    fn clone(&self) -> (r: Self)
        ensures
            r@ == self@,
    {
        let shots = clone_strings(&self.screenshot_paths);
        assert(strings_view(shots@) =~= strings_view(self.screenshot_paths@));
        TestCaseResult {
            title: self.title.clone(),
            status: self.status.clone(),
            duration_ms: self.duration_ms,
            error: clone_opt_string(&self.error),
            retry: self.retry,
            screenshot_paths: shots,
            trace_data: clone_opt_string(&self.trace_data),
        }
    }
}

/// A copy of a list of test entries.
pub fn clone_cases(v: &Vec<TestCaseResult>) -> (r: Vec<TestCaseResult>)
    ensures
        cases_view(r@) == cases_view(v@),
{
    let mut r: Vec<TestCaseResult> = Vec::new();
    let mut i: usize = 0;
    while i < v.len()
        invariant
            i <= v.len(),
            r@.len() == i,
            forall|k: int| 0 <= k < i ==> #[trigger] r@[k]@ == v@[k]@,
        decreases v.len() - i,
    {
        r.push(v[i].clone());
        i = i + 1;
    }
    assert(cases_view(r@) =~= cases_view(v@));
    r
}

/// The abstract value of a suite.
pub struct TestSuiteView {
    pub name: Seq<char>,
    pub tests: Seq<TestCaseView>,
    pub duration_ms: u32,
    pub error_message: Option<Seq<char>>,
}

impl View for TestSuiteResult {
    type V = TestSuiteView;

    open spec fn view(&self) -> TestSuiteView {
        TestSuiteView {
            name: self.name@,
            tests: cases_view(self.tests@),
            duration_ms: self.duration_ms,
            error_message: opt_view(self.error_message),
        }
    }
}

/// The abstract values of a list of suites.
pub open spec fn suites_view(v: Seq<TestSuiteResult>) -> Seq<TestSuiteView> {
    v.map_values(|t: TestSuiteResult| t@)
}

/// The symbol a test's status is shown by in the line and list formats:
/// a check mark, a cross, a dash for a skip, else a question mark.
pub open spec fn status_symbol(status: Seq<char>) -> Seq<char> {
    if status == "passed"@ {
        seq!['\u{2713}']
    } else if status == "failed"@ {
        seq!['\u{2717}']
    } else if status == "skipped"@ {
        "-"@
    } else {
        "?"@
    }
}

/// Appends the symbol of `status` (see `status_symbol`).
pub fn push_status_symbol(out: &mut Vec<char>, status: &str)
    ensures
        final(out)@ == old(out)@ + status_symbol(status@),
{
    if str_eq(status, "passed") {
        out.push('\u{2713}');
    } else if str_eq(status, "failed") {
        out.push('\u{2717}');
    } else if str_eq(status, "skipped") {
        push_str(out, "-");
    } else {
        push_str(out, "?");
    }
    assert(final(out)@ =~= old(out)@ + status_symbol(status@));
}

/// The closing line the streaming reporters print: the counts and the
/// total time as `Duration`'s `{:?}` writes it.
pub open spec fn summary_spec(passes: nat, failures: nat, skipped: nat, duration_ms: nat) -> Seq<char> {
    "  "@ + decimal_spec(passes) + " passed, "@ + decimal_spec(failures) + " failed, "@
        + decimal_spec(skipped) + " skipped ("@ + duration_debug_spec(duration_ms) + ")"@
}

/// The summary line of a run (see `summary_spec`).
pub fn summary_text(result: &AggregatedTestResult) -> (s: String)
    ensures
        s@ == summary_spec(result.passes as nat, result.failures as nat, result.skipped as nat, result.duration_ms as nat),
{
    let mut out: Vec<char> = Vec::new();
    push_str(&mut out, "  ");
    push_decimal(&mut out, result.passes as u64);
    push_str(&mut out, " passed, ");
    push_decimal(&mut out, result.failures as u64);
    push_str(&mut out, " failed, ");
    push_decimal(&mut out, result.skipped as u64);
    push_str(&mut out, " skipped (");
    push_duration_debug(&mut out, result.duration_ms as u64);
    push_str(&mut out, ")");
    assert(out@ =~= summary_spec(result.passes as nat, result.failures as nat, result.skipped as nat, result.duration_ms as nat));
    string_from_chars(&out)
}

/// How many of the results ended with status `s`.
pub open spec fn count_status(rs: Seq<TestResult>, s: TestStatus) -> nat
    decreases rs.len(),
{
    if rs.len() == 0 {
        0
    } else {
        count_status(rs.drop_last(), s) + (if rs.last().status == s { 1nat } else { 0nat })
    }
}

/// The durations of the results added up.
pub open spec fn total_duration(rs: Seq<TestResult>) -> nat
    decreases rs.len(),
{
    if rs.len() == 0 {
        0
    } else {
        total_duration(rs.drop_last()) + rs.last().duration_ms as nat
    }
}

/// The screenshots a result names, none when it names no list.
pub open spec fn screenshots_of(r: TestResult) -> Seq<Seq<char>> {
    match r.screenshot_paths {
        Some(v) => strings_view(v@),
        None => Seq::empty(),
    }
}

/// `t` is the report entry of result `r`: its name as title, its status's
/// name, and its duration, error, retries, screenshots and trace.
pub open spec fn is_case_of(t: TestCaseView, r: TestResult) -> bool {
    &&& t.title == r.name@
    &&& t.status == status_name(r.status)
    &&& t.duration_ms == r.duration_ms
    &&& t.error == opt_view(r.error_message)
    &&& t.retry == r.retries
    &&& t.screenshot_paths == screenshots_of(r)
    &&& t.trace_data == opt_view(r.trace_data)
}

proof fn lemma_counts_bounded(rs: Seq<TestResult>)
    ensures
        count_status(rs, TestStatus::Passed) + count_status(rs, TestStatus::Failed)
            + count_status(rs, TestStatus::Skipped) + count_status(rs, TestStatus::Timeout)
            == rs.len(),
    decreases rs.len(),
{
    if rs.len() > 0 {
        lemma_counts_bounded(rs.drop_last());
    }
}

proof fn lemma_duration_prefix(rs: Seq<TestResult>, i: int)
    requires
        0 <= i <= rs.len(),
    ensures
        total_duration(rs.take(i)) <= total_duration(rs),
    decreases rs.len() - i,
{
    if i < rs.len() {
        lemma_duration_prefix(rs, i + 1);
        assert(rs.take(i + 1).drop_last() =~= rs.take(i));
    } else {
        assert(rs.take(i) =~= rs);
    }
}

/// The timestamp text of a moment: whole seconds since the epoch, a
/// point, three digits of milliseconds and `Z`.
pub open spec fn timestamp_spec(secs: nat, millis: nat) -> Seq<char> {
    decimal_spec(secs) + "."@ + pad3_spec(millis) + "Z"@
}

/// Writes a moment as `timestamp_spec` describes.
pub fn format_timestamp(secs: u64, millis: u32) -> (s: String)
    requires
        millis < 1000,
    ensures
        s@ == timestamp_spec(secs as nat, millis as nat),
{
    let mut out: Vec<char> = Vec::new();
    push_decimal(&mut out, secs);
    push_str(&mut out, ".");
    push_pad3(&mut out, millis as u64);
    push_str(&mut out, "Z");
    assert(out@ =~= timestamp_spec(secs as nat, millis as nat));
    string_from_chars(&out)
}

/// The current time as a timestamp text (see `timestamp_spec`).
pub fn chrono_now() -> (s: String)
    ensures
        exists|secs: nat, millis: nat| millis < 1000 && s@ == timestamp_spec(secs, millis),
{
    let (secs, millis) = unix_secs_and_millis();
    format_timestamp(secs, millis)
}

impl TestCaseResult {
    /// The report entry of a result (see `is_case_of`).
    pub fn of_result(r: &TestResult) -> (t: Self)
        ensures
            is_case_of(t@, *r),
    {
        let shots = match &r.screenshot_paths {
            Some(v) => clone_strings(v),
            None => Vec::new(),
        };
        assert(strings_view(shots@) =~= screenshots_of(*r));
        TestCaseResult {
            title: r.name.clone(),
            status: r.status.name(),
            duration_ms: r.duration_ms,
            error: clone_opt_string(&r.error_message),
            retry: r.retries,
            screenshot_paths: shots,
            trace_data: clone_opt_string(&r.trace_data),
        }
    }
}

impl AggregatedTestResult {
    /// The report of a run recorded at `timestamp`: one entry per result,
    /// in order, all in one suite named "Default Suite"; passes, failures
    /// (failed or timed out) and skips counted; durations added up.
    pub fn from_test_results_at(results: Vec<TestResult>, timestamp: String) -> (a: Self)
        requires
            total_duration(results@) <= u32::MAX,
            results@.len() <= u32::MAX,
        ensures
            a.tests@.len() == results@.len(),
            forall|i: int| 0 <= i < results@.len() ==> is_case_of(#[trigger] a.tests@[i]@, results@[i]),
            a.passes == count_status(results@, TestStatus::Passed),
            a.failures == count_status(results@, TestStatus::Failed) + count_status(results@, TestStatus::Timeout),
            a.skipped == count_status(results@, TestStatus::Skipped),
            a.duration_ms == total_duration(results@),
            a.suites@.len() == 1,
            a.suites@[0].name@ == "Default Suite"@,
            cases_view(a.suites@[0].tests@) == cases_view(a.tests@),
            a.suites@[0].duration_ms == total_duration(results@),
            a.suites@[0].error_message.is_none(),
            a.timestamp@ == timestamp@,
    {
        let mut passes: u32 = 0;
        let mut failures: u32 = 0;
        let mut skipped: u32 = 0;
        let mut total: u32 = 0;
        let mut tests: Vec<TestCaseResult> = Vec::new();
        let mut i: usize = 0;
        let ghost rs = results@;
        while i < results.len()
            invariant
                rs == results@,
                i <= rs.len(),
                total_duration(rs) <= u32::MAX,
                rs.len() <= u32::MAX,
                passes == count_status(rs.take(i as int), TestStatus::Passed),
                failures == count_status(rs.take(i as int), TestStatus::Failed)
                    + count_status(rs.take(i as int), TestStatus::Timeout),
                skipped == count_status(rs.take(i as int), TestStatus::Skipped),
                total == total_duration(rs.take(i as int)),
                tests@.len() == i,
                forall|k: int| 0 <= k < i ==> is_case_of(#[trigger] tests@[k]@, rs[k]),
            decreases rs.len() - i,
        {
            let r = &results[i];
            proof {
                assert(rs.take(i + 1).drop_last() =~= rs.take(i as int));
                lemma_duration_prefix(rs, i + 1);
                lemma_counts_bounded(rs.take(i + 1));
            }
            total = total + r.duration_ms;
            match r.status {
                TestStatus::Passed => {
                    passes = passes + 1;
                },
                TestStatus::Failed => {
                    failures = failures + 1;
                },
                TestStatus::Skipped => {
                    skipped = skipped + 1;
                },
                TestStatus::Timeout => {
                    failures = failures + 1;
                },
            }
            let case = TestCaseResult::of_result(r);
            tests.push(case);
            i = i + 1;
        }
        assert(rs.take(rs.len() as int) =~= rs);
        let suite = TestSuiteResult {
            name: String::from_str("Default Suite"),
            tests: clone_cases(&tests),
            duration_ms: total,
            error_message: None,
        };
        let mut suites: Vec<TestSuiteResult> = Vec::new();
        suites.push(suite);
        AggregatedTestResult {
            suites,
            tests,
            passes,
            failures,
            skipped,
            duration_ms: total,
            timestamp,
        }
    }

    /// The report of a run (see `from_test_results_at`), recorded now.
    pub fn from_test_results(results: Vec<TestResult>) -> (a: Self)
        requires
            total_duration(results@) <= u32::MAX,
            results@.len() <= u32::MAX,
        ensures
            a.tests@.len() == results@.len(),
            forall|i: int| 0 <= i < results@.len() ==> is_case_of(#[trigger] a.tests@[i]@, results@[i]),
            a.passes == count_status(results@, TestStatus::Passed),
            a.failures == count_status(results@, TestStatus::Failed) + count_status(results@, TestStatus::Timeout),
            a.skipped == count_status(results@, TestStatus::Skipped),
            a.duration_ms == total_duration(results@),
            a.suites@.len() == 1,
            a.suites@[0].name@ == "Default Suite"@,
            cases_view(a.suites@[0].tests@) == cases_view(a.tests@),
            a.suites@[0].duration_ms == total_duration(results@),
            a.suites@[0].error_message.is_none(),
            exists|secs: nat, millis: nat| millis < 1000 && a.timestamp@ == timestamp_spec(secs, millis),
    {
        let ts = chrono_now();
        Self::from_test_results_at(results, ts)
    }
}

/// Every result is counted exactly once: the passes, failures (failed or
/// timed out) and skips of a report add up to the number of results.
pub proof fn law_results_counted_once(rs: Seq<TestResult>)
    ensures
        count_status(rs, TestStatus::Passed) + (count_status(rs, TestStatus::Failed) + count_status(
            rs,
            TestStatus::Timeout,
        )) + count_status(rs, TestStatus::Skipped) == rs.len(),
{
    lemma_counts_bounded(rs);
}

/// A reporter type's name reads back as that type, and a list holding
/// just that name parses to just that type.
pub proof fn law_reporter_name_round_trip(t: ReporterType)
    ensures
        reporter_of_name(reporter_name(t)) == Some(t),
        reporters_of_ascii_pieces(split_spec(reporter_name(t), ',')) == seq![t],
{
    reveal_strlit("dot");
    reveal_strlit("line");
    reveal_strlit("list");
    reveal_strlit("json");
    reveal_strlit("junit");
    reveal_strlit("html");
    reveal_strlit("github");
    assert("dot"@ =~= seq!['d', 'o', 't']);
    assert("line"@ =~= seq!['l', 'i', 'n', 'e']);
    assert("list"@ =~= seq!['l', 'i', 's', 't']);
    assert("json"@ =~= seq!['j', 's', 'o', 'n']);
    assert("junit"@ =~= seq!['j', 'u', 'n', 'i', 't']);
    assert("html"@ =~= seq!['h', 't', 'm', 'l']);
    assert("github"@ =~= seq!['g', 'i', 't', 'h', 'u', 'b']);
    let n = reporter_name(t);
    lemma_find_char(n, ',');
    assert(split_spec(n, ',') =~= seq![n]);
    assert(trim_start_spec(n) == n);
    assert(trim_end_spec(n) == n);
    assert(n.map_values(|c: char| ascii_lower_char(c)) =~= n);
    let p = split_spec(n, ',');
    assert(p.drop_last() =~= Seq::<Seq<char>>::empty());
    assert(reporters_of_ascii_pieces(p.drop_last()) =~= Seq::<ReporterType>::empty());
    assert(reporters_of_ascii_pieces(p) =~= seq![t]);
}

/// The names of a list of reporter types, joined by commas.
pub open spec fn reporter_names_joined(ts: Seq<ReporterType>) -> Seq<char>
    decreases ts.len(),
{
    if ts.len() == 0 {
        Seq::empty()
    } else if ts.len() == 1 {
        reporter_name(ts[0])
    } else {
        reporter_name(ts[0]) + seq![','] + reporter_names_joined(ts.drop_first())
    }
}

/// A reporter type's name is ASCII without a comma, and as a piece of a
/// list it reads as that type.
proof fn lemma_name_piece(t: ReporterType)
    ensures
        all_ascii(reporter_name(t)),
        forall|k: int| 0 <= k < reporter_name(t).len() ==> #[trigger] reporter_name(t)[k] != ',',
        reporters_of_ascii_pieces(seq![reporter_name(t)]) == seq![t],
{
    law_reporter_name_round_trip(t);
    reveal_strlit("dot");
    reveal_strlit("line");
    reveal_strlit("list");
    reveal_strlit("json");
    reveal_strlit("junit");
    reveal_strlit("html");
    reveal_strlit("github");
    assert("dot"@ =~= seq!['d', 'o', 't']);
    assert("line"@ =~= seq!['l', 'i', 'n', 'e']);
    assert("list"@ =~= seq!['l', 'i', 's', 't']);
    assert("json"@ =~= seq!['j', 's', 'o', 'n']);
    assert("junit"@ =~= seq!['j', 'u', 'n', 'i', 't']);
    assert("html"@ =~= seq!['h', 't', 'm', 'l']);
    assert("github"@ =~= seq!['g', 'i', 't', 'h', 'u', 'b']);
    let n = reporter_name(t);
    lemma_find_char(n, ',');
    assert(split_spec(n, ',') =~= seq![n]);
}

/// Splitting a comma-free piece, a comma and the rest gives the piece,
/// then the pieces of the rest.
proof fn lemma_split_front(n: Seq<char>, rest: Seq<char>)
    requires
        forall|k: int| 0 <= k < n.len() ==> #[trigger] n[k] != ',',
    ensures
        split_spec(n + seq![','] + rest, ',') == seq![n] + split_spec(rest, ','),
{
    let s = n + seq![','] + rest;
    lemma_find_char(s, ',');
    assert(s[n.len() as int] == ',');
    match find_char_spec(s, ',') {
        Some(i) => {
            if i < n.len() {
                assert(s[i] == n[i]);
            }
            assert(i == n.len());
            assert(s.take(i) =~= n);
            assert(s.skip(i + 1) =~= rest);
        },
        None => {},
    }
}

/// The reporter types of two runs of pieces are those of each, in order.
proof fn lemma_reporters_append(p: Seq<Seq<char>>, q: Seq<Seq<char>>)
    ensures
        reporters_of_ascii_pieces(p + q) == reporters_of_ascii_pieces(p) + reporters_of_ascii_pieces(q),
    decreases q.len(),
{
    if q.len() == 0 {
        assert(p + q =~= p);
        assert(reporters_of_ascii_pieces(p) + reporters_of_ascii_pieces(q) =~= reporters_of_ascii_pieces(p));
    } else {
        lemma_reporters_append(p, q.drop_last());
        assert((p + q).drop_last() =~= p + q.drop_last());
        assert((p + q).last() == q.last());
        let a = reporters_of_ascii_pieces(p);
        let b = reporters_of_ascii_pieces(q.drop_last());
        match reporter_of_name(trim_spec(q.last()).map_values(|c: char| ascii_lower_char(c))) {
            Some(t) => {
                assert((a + b).push(t) =~= a + b.push(t));
            },
            None => {},
        }
    }
}

/// Parsing the names of a list of reporter types, joined by commas, gives
/// the list back: the joined names are ASCII, so `parse_reporters` reads
/// them as `reporters_of_ascii_pieces` does.
pub proof fn law_parse_reporters_round_trip(ts: Seq<ReporterType>)
    ensures
        all_ascii(reporter_names_joined(ts)),
        reporters_of_ascii_pieces(split_spec(reporter_names_joined(ts), ',')) == ts,
    decreases ts.len(),
{
    if ts.len() == 0 {
        let e = Seq::<char>::empty();
        lemma_find_char(e, ',');
        assert(split_spec(e, ',') =~= seq![e]);
        let p = seq![e];
        assert(p.drop_last() =~= Seq::<Seq<char>>::empty());
        assert(trim_spec(e) =~= e) by {
            assert(trim_start_spec(e) == e);
            assert(trim_end_spec(e) == e);
        }
        assert(e.map_values(|c: char| ascii_lower_char(c)) =~= e);
        reveal_strlit("dot");
        reveal_strlit("line");
        reveal_strlit("list");
        reveal_strlit("json");
        reveal_strlit("junit");
        reveal_strlit("html");
        reveal_strlit("github");
        assert(reporter_of_name(e).is_none());
        assert(p.last() == e);
        assert(trim_spec(p.last()).map_values(|c: char| ascii_lower_char(c)) == e);
        assert(reporters_of_ascii_pieces(p.drop_last()) =~= Seq::<ReporterType>::empty());
        assert(reporters_of_ascii_pieces(p) =~= ts);
    } else if ts.len() == 1 {
        lemma_name_piece(ts[0]);
        let n = reporter_name(ts[0]);
        lemma_find_char(n, ',');
        assert(split_spec(n, ',') =~= seq![n]);
        assert(seq![ts[0]] =~= ts);
    } else {
        let t = ts[0];
        let rest = ts.drop_first();
        law_parse_reporters_round_trip(rest);
        lemma_name_piece(t);
        let n = reporter_name(t);
        let j = reporter_names_joined(rest);
        lemma_split_front(n, j);
        lemma_reporters_append(seq![n], split_spec(j, ','));
        assert(seq![t] + rest =~= ts);
        let all = n + seq![','] + j;
        assert forall|i: int| 0 <= i < all.len() implies (#[trigger] all[i] as u32) < 128 by {
            if i < n.len() {
                assert(all[i] == n[i]);
            } else if i > n.len() {
                assert(all[i] == j[i - n.len() - 1]);
            }
        }
    }
}

} // verus!
