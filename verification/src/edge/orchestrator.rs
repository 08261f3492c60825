use vstd::prelude::*;
use crate::clock::unix_millis;
use std::collections::VecDeque;
use crate::ids::{new_uuid, is_hyphenated_uuid};

verus! {

/// Limits and defaults of a `WasmOrchestrator`.
pub struct OrchestratorConfig {
    pub max_pending_jobs: usize,
    pub max_retries: u32,
    pub default_timeout_secs: u64,
    pub assertion_polling_interval_ms: u64,
    pub assertion_max_attempts: u32,
}

impl Default for OrchestratorConfig {
    fn default() -> (r: Self)
        ensures
            r.max_pending_jobs == 100,
            r.max_retries == 3,
            r.default_timeout_secs == 300,
            r.assertion_polling_interval_ms == 100,
            r.assertion_max_attempts == 50,
    {
        OrchestratorConfig {
            max_pending_jobs: 100,
            max_retries: 3,
            default_timeout_secs: 300,
            assertion_polling_interval_ms: 100,
            assertion_max_attempts: 50,
        }
    }
}

impl Clone for OrchestratorConfig {
    fn clone(&self) -> (r: Self)
        ensures
            r == *self,
    {
        OrchestratorConfig { ..*self }
    }
}

/// What an assertion checks on the page.
#[derive(PartialEq, Eq, Structural, Debug)]
pub enum AssertionKind {
    Visibility,
    Text,
    Attribute,
    Enabled,
    Value,
    Url,
    Title,
    Count,
}

impl Clone for AssertionKind {
    fn clone(&self) -> (r: Self)
        ensures
            r == *self,
    {
        match self {
            AssertionKind::Visibility => AssertionKind::Visibility,
            AssertionKind::Text => AssertionKind::Text,
            AssertionKind::Attribute => AssertionKind::Attribute,
            AssertionKind::Enabled => AssertionKind::Enabled,
            AssertionKind::Value => AssertionKind::Value,
            AssertionKind::Url => AssertionKind::Url,
            AssertionKind::Title => AssertionKind::Title,
            AssertionKind::Count => AssertionKind::Count,
        }
    }
}

/// The value an assertion expects.
pub enum AssertionValue {
    Exact(String),
    Regex(String),
    Contains(String),
    GreaterThan(i64),
    LessThan(i64),
    Any,
}

impl Clone for AssertionValue {
    fn clone(&self) -> (r: Self)
        ensures
            r == *self,
    {
        match self {
            AssertionValue::Exact(s) => AssertionValue::Exact(s.clone()),
            AssertionValue::Regex(s) => AssertionValue::Regex(s.clone()),
            AssertionValue::Contains(s) => AssertionValue::Contains(s.clone()),
            AssertionValue::GreaterThan(n) => AssertionValue::GreaterThan(*n),
            AssertionValue::LessThan(n) => AssertionValue::LessThan(*n),
            AssertionValue::Any => AssertionValue::Any,
        }
    }
}

/// One assertion that a job runs.
pub struct AssertionSpec {
    pub kind: AssertionKind,
    pub target: String,
    pub expected: AssertionValue,
    pub timeout_ms: u64,
}

impl Clone for AssertionSpec {
    fn clone(&self) -> (r: Self)
        ensures
            r == *self,
    {
        AssertionSpec {
            kind: self.kind.clone(),
            target: self.target.clone(),
            expected: self.expected.clone(),
            timeout_ms: self.timeout_ms,
        }
    }
}

fn clone_assertions(v: &Vec<AssertionSpec>) -> (r: Vec<AssertionSpec>)
    ensures
        r@ == v@,
{
    let mut r: Vec<AssertionSpec> = Vec::new();
    let mut i: usize = 0;
    while i < v.len()
        invariant
            i <= v.len(),
            r@ == v@.take(i as int),
        decreases v.len() - i,
    {
        r.push(v[i].clone());
        i = i + 1;
        assert(r@ =~= v@.take(i as int));
    }
    assert(v@.take(v.len() as int) =~= v@);
    r
}

/// A test job scheduled on the edge.
pub struct EdgeJob {
    pub id: String,
    pub test_file: String,
    pub browser: String,
    pub priority: u8,
    pub timeout_secs: u64,
    pub retries_remaining: u32,
    pub created_at: u64,
    pub assertions: Vec<AssertionSpec>,
}

/// The abstract value of an `EdgeJob`.
pub struct EdgeJobView {
    pub id: Seq<char>,
    pub test_file: Seq<char>,
    pub browser: Seq<char>,
    pub priority: u8,
    pub timeout_secs: u64,
    pub retries_remaining: u32,
    pub created_at: u64,
    pub assertions: Seq<AssertionSpec>,
}

impl View for EdgeJob {
    type V = EdgeJobView;

    open spec fn view(&self) -> EdgeJobView {
        EdgeJobView {
            id: self.id@,
            test_file: self.test_file@,
            browser: self.browser@,
            priority: self.priority,
            timeout_secs: self.timeout_secs,
            retries_remaining: self.retries_remaining,
            created_at: self.created_at,
            assertions: self.assertions@,
        }
    }
}

impl Clone for EdgeJob {
    fn clone(&self) -> (r: Self)
        ensures
            r@ == self@,
    {
        EdgeJob {
            id: self.id.clone(),
            test_file: self.test_file.clone(),
            browser: self.browser.clone(),
            priority: self.priority,
            timeout_secs: self.timeout_secs,
            retries_remaining: self.retries_remaining,
            created_at: self.created_at,
            assertions: clone_assertions(&self.assertions),
        }
    }
}

impl EdgeJob {
    /// A job with the given identity and creation time and the default
    /// priority 5, timeout of 300 s, 3 retries and no assertions.
    pub fn with_identity(id: String, test_file: String, browser: String, created_at: u64) -> (r: Self)
        ensures
            r.id == id,
            r.test_file == test_file,
            r.browser == browser,
            r.created_at == created_at,
            r.priority == 5,
            r.timeout_secs == 300,
            r.retries_remaining == 3,
            r.assertions@.len() == 0,
    {
        EdgeJob {
            id,
            test_file,
            browser,
            priority: 5,
            timeout_secs: 300,
            retries_remaining: 3,
            created_at,
            assertions: Vec::new(),
        }
    }

    /// A new job with a random id, created now.
    pub fn new(test_file: String, browser: String) -> (r: Self)
        ensures
            r.test_file == test_file,
            r.browser == browser,
            r.priority == 5,
            r.timeout_secs == 300,
            r.retries_remaining == 3,
            r.assertions@.len() == 0,
            is_hyphenated_uuid(r.id@),
    {
        let id = new_uuid();
        let created_at = unix_millis();
        Self::with_identity(id, test_file, browser, created_at)
    }

    pub fn with_priority(self, priority: u8) -> (r: Self)
        ensures
            r == (EdgeJob { priority, ..self }),
    {
        let mut s = self;
        s.priority = priority;
        s
    }

    pub fn with_timeout(self, secs: u64) -> (r: Self)
        ensures
            r == (EdgeJob { timeout_secs: secs, ..self }),
    {
        let mut s = self;
        s.timeout_secs = secs;
        s
    }

    pub fn with_retries(self, retries: u32) -> (r: Self)
        ensures
            r == (EdgeJob { retries_remaining: retries, ..self }),
    {
        let mut s = self;
        s.retries_remaining = retries;
        s
    }

    pub fn with_assertions(self, assertions: Vec<AssertionSpec>) -> (r: Self)
        ensures
            r == (EdgeJob { assertions, ..self }),
    {
        let mut s = self;
        s.assertions = assertions;
        s
    }

    pub fn can_retry(&self) -> (r: bool)
        ensures
            r == (self.retries_remaining > 0),
    {
        self.retries_remaining > 0
    }

    pub fn decrement_retries(&mut self)
        ensures
            final(self)@ == decremented(old(self)@),
    {
        self.retries_remaining = self.retries_remaining.saturating_sub(1);
    }
}

/// The job with one retry fewer (never below zero).
pub open spec fn decremented(job: EdgeJobView) -> EdgeJobView {
    EdgeJobView {
        retries_remaining: if job.retries_remaining > 0 { (job.retries_remaining - 1) as u32 } else { 0 },
        ..job
    }
}

} // verus!

verus! {

/// How a job ended.
#[derive(PartialEq, Eq, Structural, Clone, Copy, Debug)]
pub enum JobOutcome {
    Passed,
    Failed,
    Timeout,
    Cancelled,
    Skipped,
}

/// The record kept of a finished job.
pub struct JobResult {
    pub job_id: String,
    pub status: JobOutcome,
    pub duration_ms: u64,
    pub assertions_run: u32,
    pub error: Option<String>,
    pub retry_attempt: u32,
}

/// The abstract value of a `JobResult`.
pub struct JobResultView {
    pub job_id: Seq<char>,
    pub status: JobOutcome,
    pub duration_ms: u64,
    pub assertions_run: u32,
    pub error: Option<Seq<char>>,
    pub retry_attempt: u32,
}

impl View for JobResult {
    type V = JobResultView;

    open spec fn view(&self) -> JobResultView {
        JobResultView {
            job_id: self.job_id@,
            status: self.status,
            duration_ms: self.duration_ms,
            assertions_run: self.assertions_run,
            error: match self.error {
                Some(e) => Some(e@),
                None => None,
            },
            retry_attempt: self.retry_attempt,
        }
    }
}

/// A job that has been claimed and not yet finished.
pub struct RunningJob {
    pub job: EdgeJob,
    pub started_at: u64,
    pub assertions_executed: u32,
    pub last_assertion_at: Option<u64>,
}

/// The abstract value of a `RunningJob`.
pub struct RunningJobView {
    pub job: EdgeJobView,
    pub started_at: u64,
    pub assertions_executed: u32,
    pub last_assertion_at: Option<u64>,
}

impl View for RunningJob {
    type V = RunningJobView;

    open spec fn view(&self) -> RunningJobView {
        RunningJobView {
            job: self.job@,
            started_at: self.started_at,
            assertions_executed: self.assertions_executed,
            last_assertion_at: self.last_assertion_at,
        }
    }
}

/// Counts of the jobs in each state.
pub struct OrchestratorStats {
    pub pending: usize,
    pub running: usize,
    pub retrying: usize,
    pub completed: usize,
}

/// Why the orchestrator refused a request.
#[derive(PartialEq, Eq, Structural, Debug)]
pub enum OrchestratorError {
    QueueFull,
    JobNotFound,
    InvalidJob,
}

impl OrchestratorError {
    /// The error's message.
    pub fn message(&self) -> (s: String)
        ensures
            s@ == (match self {
                OrchestratorError::QueueFull => "Job queue is full"@,
                OrchestratorError::JobNotFound => "Job not found"@,
                OrchestratorError::InvalidJob => "Invalid job"@,
            }),
    {
        match self {
            OrchestratorError::QueueFull => String::from_str("Job queue is full"),
            OrchestratorError::JobNotFound => String::from_str("Job not found"),
            OrchestratorError::InvalidJob => String::from_str("Invalid job"),
        }
    }
}

struct PriorityJob {
    job: EdgeJob,
    score: i128,
}

/// The scheduling score of a job at time `now`: lower scores are claimed
/// first. A higher priority lowers it by 1000 per step; the job's age
/// (`now - created_at`, both read as `i64`) raises it.
pub open spec fn priority_score(job: EdgeJobView, now: u64) -> int {
    (10 - job.priority as int) * 1000 + ((now as i64) as int - (job.created_at as i64) as int)
}

/// `k` is the first position of a lowest score in `s`.
pub open spec fn is_first_min(s: Seq<(EdgeJobView, int)>, k: int) -> bool {
    &&& 0 <= k < s.len()
    &&& forall|j: int| 0 <= j < s.len() ==> s[k].1 <= #[trigger] s[j].1
    &&& forall|j: int| 0 <= j < k ==> s[k].1 < #[trigger] s[j].1
}

/// No two running jobs share an id.
pub open spec fn ids_distinct(s: Seq<RunningJobView>) -> bool {
    forall|i: int, j: int|
        0 <= i < s.len() && 0 <= j < s.len() && i != j ==> #[trigger] s[i].job.id != #[trigger] s[j].job.id
}

/// Whether some running job has the id.
pub open spec fn has_id(s: Seq<RunningJobView>, id: Seq<char>) -> bool {
    exists|i: int| 0 <= i < s.len() && #[trigger] s[i].job.id == id
}

/// The position of the running job with the id.
pub open spec fn index_of_id(s: Seq<RunningJobView>, id: Seq<char>) -> int {
    choose|i: int| 0 <= i < s.len() && #[trigger] s[i].job.id == id
}

/// The running jobs after recording `r`: it replaces the job with the same
/// id, or is added at the end.
pub open spec fn upsert(s: Seq<RunningJobView>, r: RunningJobView) -> Seq<RunningJobView> {
    if has_id(s, r.job.id) {
        s.update(index_of_id(s, r.job.id), r)
    } else {
        s.push(r)
    }
}

/// The running jobs without the one with the id.
pub open spec fn without_id(s: Seq<RunningJobView>, id: Seq<char>) -> Seq<RunningJobView> {
    if has_id(s, id) {
        s.remove(index_of_id(s, id))
    } else {
        s
    }
}

/// The pending queue once the first job waiting for a retry, if any, has
/// been moved into it with one retry fewer.
pub open spec fn staged(
    pending: Seq<(EdgeJobView, int)>,
    retry: Seq<EdgeJobView>,
    now: u64,
) -> Seq<(EdgeJobView, int)> {
    if retry.len() > 0 {
        pending.push((decremented(retry[0]), priority_score(decremented(retry[0]), now)))
    } else {
        pending
    }
}

/// What claiming at `now` makes of the queues: with nothing staged, no job
/// and nothing changed; else the first job with the lowest staged score is
/// returned, leaves the staged queue and starts running at `now`.
pub open spec fn claim_outcome(
    pending: Seq<(EdgeJobView, int)>,
    retry: Seq<EdgeJobView>,
    running: Seq<RunningJobView>,
    new_pending: Seq<(EdgeJobView, int)>,
    new_running: Seq<RunningJobView>,
    r: Option<EdgeJobView>,
    now: u64,
) -> bool {
    let q = staged(pending, retry, now);
    match r {
        None => q.len() == 0 && new_pending.len() == 0 && new_running == running,
        Some(job) => exists|k: int| {
            &&& #[trigger] is_first_min(q, k)
            &&& job == q[k].0
            &&& new_pending == q.remove(k)
            &&& new_running == upsert(
                running,
                RunningJobView { job, started_at: now, assertions_executed: 0, last_assertion_at: None },
            )
        },
    }
}

/// The view of a job that may be absent.
pub open spec fn job_view(r: Option<EdgeJob>) -> Option<EdgeJobView> {
    match r {
        Some(j) => Some(j@),
        None => None,
    }
}

/// Whether a running job has reached its timeout at `now`.
pub open spec fn timed_out(r: RunningJobView, now: u64) -> bool {
    (if now >= r.started_at { (now - r.started_at) as int } else { 0int }) / 1000 >= r.job.timeout_secs
}

/// The running jobs that have not timed out at `now`, in order.
pub open spec fn still_running(s: Seq<RunningJobView>, now: u64) -> Seq<RunningJobView>
    decreases s.len(),
{
    if s.len() == 0 {
        s
    } else if timed_out(s.last(), now) {
        still_running(s.drop_last(), now)
    } else {
        still_running(s.drop_last(), now).push(s.last())
    }
}

/// The running jobs that have timed out at `now`, in order.
pub open spec fn expired(s: Seq<RunningJobView>, now: u64) -> Seq<RunningJobView>
    decreases s.len(),
{
    if s.len() == 0 {
        s
    } else if timed_out(s.last(), now) {
        expired(s.drop_last(), now).push(s.last())
    } else {
        expired(s.drop_last(), now)
    }
}

/// The record kept of a job that timed out at `now`.
pub open spec fn timeout_record(r: RunningJobView, now: u64) -> JobResultView {
    JobResultView {
        job_id: r.job.id,
        status: JobOutcome::Timeout,
        duration_ms: if now >= r.started_at { (now - r.started_at) as u64 } else { 0 },
        assertions_run: r.assertions_executed,
        error: Some("Job timed out"@),
        retry_attempt: attempts_used(r.job.retries_remaining),
    }
}

/// `3 - remaining` in wrapping `u32` arithmetic: the attempt number that a
/// timed-out job is recorded with.
pub open spec fn attempts_used(remaining: u32) -> u32 {
    if remaining <= 3 {
        (3 - remaining) as u32
    } else {
        (0x1_0000_0003 - remaining) as u32
    }
}

proof fn lemma_expired_split(s: Seq<RunningJobView>, now: u64, i: int)
    requires
        0 <= i < s.len(),
    ensures
        s.take(i + 1).drop_last() == s.take(i),
        s.take(i + 1).last() == s[i],
        still_running(s.take(i + 1), now) == if timed_out(s[i], now) {
            still_running(s.take(i), now)
        } else {
            still_running(s.take(i), now).push(s[i])
        },
        expired(s.take(i + 1), now) == if timed_out(s[i], now) {
            expired(s.take(i), now).push(s[i])
        } else {
            expired(s.take(i), now)
        },
{
    assert(s.take(i + 1).drop_last() =~= s.take(i));
}

proof fn lemma_still_running_within(s: Seq<RunningJobView>, now: u64)
    ensures
        forall|k: int| #![trigger still_running(s, now)[k]] 0 <= k < still_running(s, now).len() ==> exists|j: int|
            0 <= j < s.len() && #[trigger] s[j] == still_running(s, now)[k],
    decreases s.len(),
{
    if s.len() > 0 {
        lemma_still_running_within(s.drop_last(), now);
        let p = still_running(s.drop_last(), now);
        assert forall|k: int| #![trigger still_running(s, now)[k]] 0 <= k < still_running(s, now).len() implies exists|j: int|
            0 <= j < s.len() && #[trigger] s[j] == still_running(s, now)[k] by {
            if k < p.len() {
                let j = choose|j: int| 0 <= j < s.drop_last().len() && s.drop_last()[j] == p[k];
                assert(s[j] == still_running(s, now)[k]);
            } else {
                assert(s[s.len() - 1] == still_running(s, now)[k]);
            }
        }
    }
}

proof fn lemma_still_running_distinct(s: Seq<RunningJobView>, now: u64)
    requires
        ids_distinct(s),
    ensures
        ids_distinct(still_running(s, now)),
    decreases s.len(),
{
    if s.len() > 0 {
        let d = s.drop_last();
        assert(ids_distinct(d)) by {
            assert forall|i: int, j: int| 0 <= i < d.len() && 0 <= j < d.len() && i != j implies
                #[trigger] d[i].job.id != #[trigger] d[j].job.id by {
                assert(d[i] == s[i] && d[j] == s[j]);
            }
        }
        lemma_still_running_distinct(d, now);
        lemma_still_running_within(d, now);
        let p = still_running(d, now);
        if !timed_out(s.last(), now) {
            let q = p.push(s.last());
            assert forall|i: int, j: int| 0 <= i < q.len() && 0 <= j < q.len() && i != j implies
                #[trigger] q[i].job.id != #[trigger] q[j].job.id by {
                if i < p.len() && j < p.len() {
                } else if i < p.len() {
                    let a = choose|a: int| 0 <= a < d.len() && #[trigger] d[a] == p[i];
                    assert(s[a] == d[a]);
                    assert(s[s.len() - 1] == q[j]);
                } else {
                    let a = choose|a: int| 0 <= a < d.len() && #[trigger] d[a] == p[j];
                    assert(s[a] == d[a]);
                    assert(s[s.len() - 1] == q[i]);
                }
            }
        }
    }
}

/// The finished-job history after adding `r`: at most 1000 records are
/// kept once it grows, the oldest leaving first.
pub open spec fn record_completion(c: Seq<JobResultView>, r: JobResultView) -> Seq<JobResultView> {
    if c.push(r).len() > 1000 {
        c.push(r).drop_first()
    } else {
        c.push(r)
    }
}

/// Schedules edge jobs: a priority queue of pending jobs, a queue of jobs
/// waiting for a retry, the running jobs and a bounded history.
pub struct WasmOrchestrator {
    config: OrchestratorConfig,
    pending_jobs: Vec<PriorityJob>,
    retry_queue: VecDeque<EdgeJob>,
    running_jobs: Vec<RunningJob>,
    completed_jobs: VecDeque<JobResult>,
}

impl WasmOrchestrator {
    pub closed spec fn config(&self) -> OrchestratorConfig {
        self.config
    }

    /// The pending jobs with their scores.
    pub closed spec fn pending(&self) -> Seq<(EdgeJobView, int)> {
        self.pending_jobs@.map_values(|p: PriorityJob| (p.job@, p.score as int))
    }

    /// The jobs waiting for a retry, first in line first.
    pub closed spec fn retry(&self) -> Seq<EdgeJobView> {
        self.retry_queue@.map_values(|j: EdgeJob| j@)
    }

    /// The running jobs.
    pub closed spec fn running(&self) -> Seq<RunningJobView> {
        self.running_jobs@.map_values(|r: RunningJob| r@)
    }

    /// The finished jobs, oldest first.
    pub closed spec fn completed(&self) -> Seq<JobResultView> {
        self.completed_jobs@.map_values(|r: JobResult| r@)
    }

    /// The orchestrator's invariant: running jobs have distinct ids.
    pub closed spec fn wf(&self) -> bool {
        ids_distinct(self.running())
    }

    pub fn new(config: OrchestratorConfig) -> (r: Self)
        ensures
            r.wf(),
            r.config() == config,
            r.pending().len() == 0,
            r.retry().len() == 0,
            r.running().len() == 0,
            r.completed().len() == 0,
    {
        let r = WasmOrchestrator {
            config,
            pending_jobs: Vec::new(),
            retry_queue: VecDeque::new(),
            running_jobs: Vec::new(),
            completed_jobs: VecDeque::new(),
        };
        assert(r.running() =~= Seq::<RunningJobView>::empty());
        r
    }

    fn compute_priority_score(job: &EdgeJob, now: u64) -> (s: i128)
        ensures
            s as int == priority_score(job@, now),
    {
        let factor: i128 = (10i128 - job.priority as i128) * 1000;
        let age: i128 = (now as i64) as i128 - (job.created_at as i64) as i128;
        factor + age
    }

    /// Queues a job with its score at time `now`, unless the pending and
    /// running jobs together already reach `max_pending_jobs`.
    pub fn submit_at(&mut self, job: EdgeJob, now: u64) -> (r: Result<(), OrchestratorError>)
        requires
            old(self).wf(),
        ensures
            final(self).wf(),
            final(self).config() == old(self).config(),
            final(self).retry() == old(self).retry(),
            final(self).running() == old(self).running(),
            final(self).completed() == old(self).completed(),
            old(self).pending().len() + old(self).running().len() >= old(self).config().max_pending_jobs
                ==> r == Err::<(), OrchestratorError>(OrchestratorError::QueueFull)
                && final(self).pending() == old(self).pending(),
            old(self).pending().len() + old(self).running().len() < old(self).config().max_pending_jobs
                ==> r is Ok
                && final(self).pending() == old(self).pending().push((job@, priority_score(job@, now))),
    {
        let p = self.pending_jobs.len();
        let q = self.running_jobs.len();
        let max = self.config.max_pending_jobs;
        if p >= max || q >= max - p {
            return Err(OrchestratorError::QueueFull);
        }
        let score = Self::compute_priority_score(&job, now);
        let ghost j = job@;
        self.pending_jobs.push(PriorityJob { job, score });
        assert(self.pending() =~= old(self).pending().push((j, priority_score(j, now))));
        Ok(())
    }

    /// Queues a job, scored at the current time (see `submit_at`).
    pub fn submit(&mut self, job: EdgeJob) -> (r: Result<(), OrchestratorError>)
        requires
            old(self).wf(),
        ensures
            final(self).wf(),
            final(self).config() == old(self).config(),
            final(self).retry() == old(self).retry(),
            final(self).running() == old(self).running(),
            final(self).completed() == old(self).completed(),
            old(self).pending().len() + old(self).running().len() >= old(self).config().max_pending_jobs
                ==> r == Err::<(), OrchestratorError>(OrchestratorError::QueueFull)
                && final(self).pending() == old(self).pending(),
            old(self).pending().len() + old(self).running().len() < old(self).config().max_pending_jobs
                ==> r is Ok && exists|now: u64| final(self).pending()
                == old(self).pending().push((job@, #[trigger] priority_score(job@, now))),
    {
        let now = unix_millis();
        self.submit_at(job, now)
    }

    /// Puts a job in the retry queue if it has retries left.
    pub fn submit_for_retry(&mut self, job: EdgeJob)
        requires
            old(self).wf(),
        ensures
            final(self).wf(),
            final(self).config() == old(self).config(),
            final(self).pending() == old(self).pending(),
            final(self).running() == old(self).running(),
            final(self).completed() == old(self).completed(),
            final(self).retry() == if job.retries_remaining > 0 {
                old(self).retry().push(job@)
            } else {
                old(self).retry()
            },
    {
        if job.can_retry() {
            let ghost j = job@;
            self.retry_queue.push_back(job);
            assert(self.retry() =~= old(self).retry().push(j));
        }
    }

    /// The position of the running job with the given id, if any.
    fn find_running(&self, id: &str) -> (r: Option<usize>)
        ensures
            match r {
                Some(i) => i < self.running().len() && self.running()[i as int].job.id == id@,
                None => !has_id(self.running(), id@),
            },
    {
        let mut i: usize = 0;
        while i < self.running_jobs.len()
            invariant
                i <= self.running_jobs.len(),
                forall|k: int| 0 <= k < i ==> #[trigger] self.running()[k].job.id != id@,
            decreases self.running_jobs.len() - i,
        {
            if crate::text::str_eq(self.running_jobs[i].job.id.as_str(), id) {
                return Some(i);
            }
            i = i + 1;
        }
        None
    }

    /// The position of the first lowest score in the pending queue.
    fn first_min(&self) -> (k: usize)
        requires
            self.pending().len() > 0,
        ensures
            is_first_min(self.pending(), k as int),
    {
        let mut k: usize = 0;
        let mut i: usize = 1;
        while i < self.pending_jobs.len()
            invariant
                1 <= i <= self.pending_jobs.len(),
                k < i,
                self.pending().len() == self.pending_jobs.len(),
                forall|j: int| 0 <= j < i ==> self.pending()[k as int].1 <= #[trigger] self.pending()[j].1,
                forall|j: int| 0 <= j < k ==> self.pending()[k as int].1 < #[trigger] self.pending()[j].1,
            decreases self.pending_jobs.len() - i,
        {
            if self.pending_jobs[i].score < self.pending_jobs[k].score {
                k = i;
            }
            i = i + 1;
        }
        k
    }

    /// Records `r` as running: it replaces the running job with the same id,
    /// or is added.
    fn insert_running(&mut self, r: RunningJob)
        requires
            old(self).wf(),
        ensures
            final(self).wf(),
            final(self).running() == upsert(old(self).running(), r@),
            final(self).config() == old(self).config(),
            final(self).pending() == old(self).pending(),
            final(self).retry() == old(self).retry(),
            final(self).completed() == old(self).completed(),
    {
        let ghost rv = r@;
        let ghost s = old(self).running();
        match self.find_running(r.job.id.as_str()) {
            Some(i) => {
                assert(index_of_id(s, rv.job.id) == i) by {
                    let c = index_of_id(s, rv.job.id);
                    assert(s[i as int].job.id == rv.job.id);
                }
                self.running_jobs.set(i, r);
                assert(self.running() =~= s.update(i as int, rv));
            },
            None => {
                self.running_jobs.push(r);
                assert(self.running() =~= s.push(rv));
            },
        }
    }

    /// Claims the next job at time `now`: the first job waiting for a retry,
    /// if any, first joins the pending queue with one retry fewer; then the
    /// first job with the lowest score leaves the queue and starts running.
    pub fn claim_next_at(&mut self, now: u64) -> (r: Option<EdgeJob>)
        requires
            old(self).wf(),
        ensures
            final(self).wf(),
            final(self).config() == old(self).config(),
            final(self).completed() == old(self).completed(),
            final(self).retry() == if old(self).retry().len() > 0 {
                old(self).retry().drop_first()
            } else {
                old(self).retry()
            },
            match r {
                None => staged(old(self).pending(), old(self).retry(), now).len() == 0
                    && final(self).pending().len() == 0
                    && final(self).running() == old(self).running(),
                Some(job) => exists|k: int| {
                    &&& #[trigger] is_first_min(staged(old(self).pending(), old(self).retry(), now), k)
                    &&& job@ == staged(old(self).pending(), old(self).retry(), now)[k].0
                    &&& final(self).pending() == staged(old(self).pending(), old(self).retry(), now).remove(k)
                    &&& final(self).running() == upsert(
                        old(self).running(),
                        RunningJobView {
                            job: job@,
                            started_at: now,
                            assertions_executed: 0,
                            last_assertion_at: None,
                        },
                    )
                },
            },
    {
        let ghost q = staged(old(self).pending(), old(self).retry(), now);
        if let Some(mut retry_job) = self.retry_queue.pop_front() {
            retry_job.decrement_retries();
            let score = Self::compute_priority_score(&retry_job, now);
            let ghost j = retry_job@;
            self.pending_jobs.push(PriorityJob { job: retry_job, score });
            assert(self.pending() =~= q);
            assert(self.retry() =~= old(self).retry().drop_first());
        } else {
            assert(self.pending() =~= q);
        }
        if self.pending_jobs.len() == 0 {
            return None;
        }
        let k = self.first_min();
        let ghost pend = self.pending();
        let p = self.pending_jobs.remove(k);
        assert(self.pending() =~= pend.remove(k as int));
        let job = p.job;
        let copy = job.clone();
        self.insert_running(RunningJob {
            job: copy,
            started_at: now,
            assertions_executed: 0,
            last_assertion_at: None,
        });
        assert(is_first_min(q, k as int));
        Some(job)
    }

    /// Claims the next job at the current time (see `claim_next_at`).
    pub fn claim_next(&mut self) -> (r: Option<EdgeJob>)
        requires
            old(self).wf(),
        ensures
            final(self).wf(),
            final(self).config() == old(self).config(),
            final(self).completed() == old(self).completed(),
            final(self).retry() == if old(self).retry().len() > 0 {
                old(self).retry().drop_first()
            } else {
                old(self).retry()
            },
            exists|now: u64| #[trigger] claim_outcome(
                old(self).pending(),
                old(self).retry(),
                old(self).running(),
                final(self).pending(),
                final(self).running(),
                job_view(r),
                now,
            ),
    {
        let now = unix_millis();
        let r = self.claim_next_at(now);
        assert(claim_outcome(
            old(self).pending(),
            old(self).retry(),
            old(self).running(),
            self.pending(),
            self.running(),
            job_view(r),
            now,
        ));
        r
    }

    /// Finishes a running job: it stops running and its result joins the
    /// history, which keeps at most 1000 records once it grows.
    pub fn complete(&mut self, job_id: &str, result: JobResult)
        requires
            old(self).wf(),
        ensures
            final(self).wf(),
            final(self).config() == old(self).config(),
            final(self).pending() == old(self).pending(),
            final(self).retry() == old(self).retry(),
            final(self).running() == without_id(old(self).running(), job_id@),
            final(self).completed() == record_completion(old(self).completed(), result@),
    {
        let ghost s = old(self).running();
        match self.find_running(job_id) {
            Some(i) => {
                assert(index_of_id(s, job_id@) == i) by {
                    let c = index_of_id(s, job_id@);
                    assert(s[i as int].job.id == job_id@);
                }
                self.running_jobs.remove(i);
                assert(self.running() =~= s.remove(i as int));
            },
            None => {},
        }
        let ghost rv = result@;
        let ghost c = old(self).completed();
        self.completed_jobs.push_back(result);
        assert(self.completed() =~= c.push(rv));
        if self.completed_jobs.len() > 1000 {
            self.completed_jobs.pop_front();
            assert(self.completed() =~= c.push(rv).drop_first());
        }
    }

    /// Ends every running job whose timeout has passed at `now` (time from
    /// start, counted as 0 when `now` is earlier, in whole seconds, reaching
    /// the job's timeout): each leaves the running jobs, a timeout record
    /// joins the history, and their ids are returned, in running order.
    pub fn check_timeout_at(&mut self, now: u64) -> (r: Vec<String>)
        requires
            old(self).wf(),
        ensures
            final(self).wf(),
            final(self).config() == old(self).config(),
            final(self).pending() == old(self).pending(),
            final(self).retry() == old(self).retry(),
            final(self).running() == still_running(old(self).running(), now),
            r@.len() == expired(old(self).running(), now).len(),
            forall|i: int| 0 <= i < r@.len() ==> #[trigger] r@[i]@ == expired(old(self).running(), now)[i].job.id,
            final(self).completed() == old(self).completed() + expired(old(self).running(), now).map_values(
                |x: RunningJobView| timeout_record(x, now),
            ),
    {
        let ghost s = old(self).running();
        let ghost c0 = old(self).completed();
        let mut kept: Vec<RunningJob> = Vec::new();
        let mut ids: Vec<String> = Vec::new();
        let mut i: usize = 0;
        assert(s.take(0) =~= Seq::<RunningJobView>::empty());
        assert(c0 + expired(s.take(0), now).map_values(|x: RunningJobView| timeout_record(x, now)) =~= c0);
        while i < self.running_jobs.len()
            invariant
                i <= self.running_jobs.len(),
                s == self.running(),
                self.config() == old(self).config(),
                self.pending() == old(self).pending(),
                self.retry() == old(self).retry(),
                kept@.map_values(|r: RunningJob| r@) == still_running(s.take(i as int), now),
                ids@.len() == expired(s.take(i as int), now).len(),
                forall|k: int| 0 <= k < ids@.len() ==> #[trigger] ids@[k]@ == expired(s.take(i as int), now)[k].job.id,
                self.completed() == c0 + expired(s.take(i as int), now).map_values(
                    |x: RunningJobView| timeout_record(x, now),
                ),
            decreases self.running_jobs.len() - i,
        {
            proof {
                lemma_expired_split(s, now, i as int);
            }
            let started = self.running_jobs[i].started_at;
            let elapsed = if now >= started { now - started } else { 0 };
            assert(self.running()[i as int] == self.running_jobs@[i as int]@);
            if elapsed / 1000 >= self.running_jobs[i].job.timeout_secs {
                let id = self.running_jobs[i].job.id.clone();
                let id2 = self.running_jobs[i].job.id.clone();
                let remaining = self.running_jobs[i].job.retries_remaining;
                let attempt: u32 = if remaining <= 3 { 3 - remaining } else { (u32::MAX - remaining) + 4 };
                let rec = JobResult {
                    job_id: id2,
                    status: JobOutcome::Timeout,
                    duration_ms: elapsed,
                    assertions_run: self.running_jobs[i].assertions_executed,
                    error: Some(String::from_str("Job timed out")),
                    retry_attempt: attempt,
                };
                let ghost e = expired(s.take(i as int), now);
                let ghost cc = self.completed();
                assert(rec@ == timeout_record(s[i as int], now));
                self.completed_jobs.push_back(rec);
                assert(self.completed() =~= cc.push(timeout_record(s[i as int], now)));
                assert(e.push(s[i as int]).map_values(|x: RunningJobView| timeout_record(x, now))
                    =~= e.map_values(|x: RunningJobView| timeout_record(x, now)).push(timeout_record(s[i as int], now)));
                ids.push(id);
                assert forall|k: int| 0 <= k < ids@.len() implies #[trigger] ids@[k]@ == expired(s.take(i + 1), now)[k].job.id by {
                    if k < ids@.len() - 1 {
                    }
                }
            } else {
                let ghost kv = kept@.map_values(|r: RunningJob| r@);
                let copy = RunningJob {
                    job: self.running_jobs[i].job.clone(),
                    started_at: self.running_jobs[i].started_at,
                    assertions_executed: self.running_jobs[i].assertions_executed,
                    last_assertion_at: self.running_jobs[i].last_assertion_at,
                };
                kept.push(copy);
                assert(kept@.map_values(|r: RunningJob| r@) =~= kv.push(s[i as int]));
            }
            i = i + 1;
        }
        assert(s.take(s.len() as int) =~= s);
        self.running_jobs = kept;
        proof {
            lemma_still_running_distinct(s, now);
        }
        ids
    }

    /// Ends the running jobs whose timeout has passed at the current time
    /// (see `check_timeout_at`).
    pub fn check_timeout(&mut self) -> (r: Vec<String>)
        requires
            old(self).wf(),
        ensures
            final(self).wf(),
            final(self).config() == old(self).config(),
            final(self).pending() == old(self).pending(),
            final(self).retry() == old(self).retry(),
            exists|now: u64| #[trigger] still_running(old(self).running(), now) == final(self).running()
                && r@.len() == expired(old(self).running(), now).len()
                && (forall|i: int| 0 <= i < r@.len() ==> #[trigger] r@[i]@ == expired(old(self).running(), now)[i].job.id)
                && final(self).completed() == old(self).completed() + expired(old(self).running(), now).map_values(
                    |x: RunningJobView| timeout_record(x, now),
                ),
    {
        let now = unix_millis();
        self.check_timeout_at(now)
    }

    pub fn get_running_count(&self) -> (n: usize)
        ensures
            n == self.running().len(),
    {
        self.running_jobs.len()
    }

    pub fn get_pending_count(&self) -> (n: usize)
        ensures
            n == self.pending().len(),
    {
        self.pending_jobs.len()
    }

    pub fn get_retry_count(&self) -> (n: usize)
        ensures
            n == self.retry().len(),
    {
        self.retry_queue.len()
    }

    pub fn get_stats(&self) -> (s: OrchestratorStats)
        ensures
            s.pending == self.pending().len(),
            s.running == self.running().len(),
            s.retrying == self.retry().len(),
            s.completed == self.completed().len(),
    {
        OrchestratorStats {
            pending: self.pending_jobs.len(),
            running: self.running_jobs.len(),
            retrying: self.retry_queue.len(),
            completed: self.completed_jobs.len(),
        }
    }
}

} // verus!

verus! {

/// A job handed back for a retry is the next one claimed when nothing else
/// is pending, and it comes back with one retry fewer.
pub proof fn law_retry_comes_back_with_one_fewer(job: EdgeJobView, now: u64)
    requires
        job.retries_remaining > 0,
    ensures
        is_first_min(staged(Seq::empty(), seq![job], now), 0),
        staged(Seq::empty(), seq![job], now)[0].0 == decremented(job),
        decremented(job).retries_remaining == job.retries_remaining - 1,
{
}

/// The claimed job has a score no greater than any job left pending.
pub proof fn law_claimed_job_has_lowest_score(q: Seq<(EdgeJobView, int)>, k: int)
    requires
        is_first_min(q, k),
    ensures
        forall|i: int| 0 <= i < q.remove(k).len() ==> q[k].1 <= #[trigger] q.remove(k)[i].1,
{
    assert forall|i: int| 0 <= i < q.remove(k).len() implies q[k].1 <= #[trigger] q.remove(k)[i].1 by {
        if i < k {
            assert(q.remove(k)[i] == q[i]);
        } else {
            assert(q.remove(k)[i] == q[i + 1]);
        }
    }
}

/// Of two jobs created and scored at the same moments, the one with the
/// greater priority number scores lower, so it is claimed first.
pub proof fn law_higher_priority_claimed_first(a: EdgeJobView, b: EdgeJobView, now: u64)
    requires
        a.created_at == b.created_at,
        a.priority > b.priority,
    ensures
        priority_score(a, now) < priority_score(b, now),
{
}

/// Claiming a job takes exactly one job out of the pending and retry queues.
pub proof fn law_claim_takes_one_job(
    pending: Seq<(EdgeJobView, int)>,
    retry: Seq<EdgeJobView>,
    now: u64,
    k: int,
)
    requires
        is_first_min(staged(pending, retry, now), k),
    ensures
        staged(pending, retry, now).remove(k).len() + (if retry.len() > 0 { retry.drop_first().len() } else { retry.len() })
            == pending.len() + retry.len() - 1,
{
}

/// A timeout check splits the running jobs in two: those still running,
/// none of which has timed out, and those that ended, all of which have.
pub proof fn law_timeout_partitions_running(s: Seq<RunningJobView>, now: u64)
    ensures
        still_running(s, now).len() + expired(s, now).len() == s.len(),
        forall|i: int| 0 <= i < still_running(s, now).len() ==> !timed_out(#[trigger] still_running(s, now)[i], now),
        forall|i: int| 0 <= i < expired(s, now).len() ==> timed_out(#[trigger] expired(s, now)[i], now),
    decreases s.len(),
{
    if s.len() > 0 {
        law_timeout_partitions_running(s.drop_last(), now);
    }
}

/// The history never grows past 1000 records through `complete`, and its
/// newest record is the one just added.
pub proof fn law_history_is_bounded(c: Seq<JobResultView>, r: JobResultView)
    ensures
        record_completion(c, r).len() <= if c.len() >= 1000 { c.len() } else { 1000 },
        record_completion(c, r).last() == r,
{
}

/// After `complete`, no running job has the finished job's id.
pub proof fn law_completed_job_stops_running(s: Seq<RunningJobView>, id: Seq<char>)
    requires
        ids_distinct(s),
    ensures
        !has_id(without_id(s, id), id),
{
    if has_id(s, id) {
        let k = index_of_id(s, id);
        let t = s.remove(k);
        assert forall|i: int| 0 <= i < t.len() implies #[trigger] t[i].job.id != id by {
            if i < k {
                assert(t[i] == s[i]);
            } else {
                assert(t[i] == s[i + 1]);
            }
        }
    }
}

} // verus!
