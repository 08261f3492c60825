use vstd::prelude::*;
use crate::text::{str_eq, contains_spec, str_contains};

verus! {

/// The kind of network event a waiter waits for.
#[derive(PartialEq, Eq, Structural, Clone, Copy, Debug)]
pub enum RequestKind {
    Request,
    Response,
    Error,
}

/// A pending wait for a network event whose URL contains `pattern`; `id`
/// names the channel the event is handed to.
pub struct UrlWaiter {
    pub id: u64,
    pub pattern: String,
    pub kind: RequestKind,
    pub created_at_ms: u64,
}

/// The waiters of a client, in the order they were registered, and how
/// long a waiter may stay.
pub struct UrlWaiterRegistry {
    pub waiters: Vec<UrlWaiter>,
    pub timeout_ms: u64,
}

/// The kind of event a method reports, if it is a network event.
pub open spec fn kind_of_method(m: Seq<char>) -> Option<RequestKind> {
    if m == "network.beforeRequestSent"@ {
        Some(RequestKind::Request)
    } else if m == "network.responseCompleted"@ {
        Some(RequestKind::Response)
    } else if m == "network.fetchError"@ {
        Some(RequestKind::Error)
    } else {
        None
    }
}

/// Whether a waiter is answered by an event of `kind` for `url`.
pub open spec fn answers(w: UrlWaiter, kind: RequestKind, url: Seq<char>) -> bool {
    w.kind == kind && contains_spec(url, w.pattern@)
}

/// The waiters an event leaves, in order.
pub open spec fn unanswered(ws: Seq<UrlWaiter>, kind: RequestKind, url: Seq<char>) -> Seq<UrlWaiter>
    decreases ws.len(),
{
    if ws.len() == 0 {
        Seq::empty()
    } else if answers(ws.last(), kind, url) {
        unanswered(ws.drop_last(), kind, url)
    } else {
        unanswered(ws.drop_last(), kind, url).push(ws.last())
    }
}

/// The ids of the waiters an event answers, in order.
pub open spec fn answered_ids(ws: Seq<UrlWaiter>, kind: RequestKind, url: Seq<char>) -> Seq<u64>
    decreases ws.len(),
{
    if ws.len() == 0 {
        Seq::empty()
    } else if answers(ws.last(), kind, url) {
        answered_ids(ws.drop_last(), kind, url).push(ws.last().id)
    } else {
        answered_ids(ws.drop_last(), kind, url)
    }
}

/// Whether a waiter created at `created_at_ms` is still within `timeout_ms`
/// at `now_ms` (no time has passed when the clock reads earlier).
pub open spec fn is_fresh(created_at_ms: u64, now_ms: u64, timeout_ms: u64) -> bool {
    (if now_ms >= created_at_ms { now_ms - created_at_ms } else { 0 }) < timeout_ms
}

/// The waiters still fresh at `now_ms`, in order.
pub open spec fn fresh_waiters(ws: Seq<UrlWaiter>, now_ms: u64, timeout_ms: u64) -> Seq<UrlWaiter>
    decreases ws.len(),
{
    if ws.len() == 0 {
        Seq::empty()
    } else if is_fresh(ws.last().created_at_ms, now_ms, timeout_ms) {
        fresh_waiters(ws.drop_last(), now_ms, timeout_ms).push(ws.last())
    } else {
        fresh_waiters(ws.drop_last(), now_ms, timeout_ms)
    }
}

fn copy_waiter(w: &UrlWaiter) -> (r: UrlWaiter)
    ensures
        r == *w,
{
    UrlWaiter { id: w.id, pattern: w.pattern.clone(), kind: w.kind, created_at_ms: w.created_at_ms }
}

impl UrlWaiterRegistry {
    /// An empty registry whose waiters may stay `timeout_ms`.
    pub fn new(timeout_ms: u64) -> (r: Self)
        ensures
            r.waiters@.len() == 0,
            r.timeout_ms == timeout_ms,
    {
        UrlWaiterRegistry { waiters: Vec::new(), timeout_ms }
    }

    /// Adds a waiter for events of `kind` whose URL contains `pattern`,
    /// answered through channel `id`, registered at `now_ms`.
    pub fn register(&mut self, id: u64, pattern: String, kind: RequestKind, now_ms: u64)
        ensures
            final(self).waiters@ == old(self).waiters@.push(
                UrlWaiter { id, pattern, kind, created_at_ms: now_ms },
            ),
            final(self).timeout_ms == old(self).timeout_ms,
    {
        self.waiters.push(UrlWaiter { id, pattern, kind, created_at_ms: now_ms });
    }

    /// Answers the waiters that an event with `method` for `url` matches:
    /// for a network event, those of its kind whose pattern occurs in the
    /// URL are removed and their ids returned, in order; the others stay in
    /// order. Any other event changes nothing.
    pub fn resolve_matching(&mut self, method: &str, url: &str) -> (ids: Vec<u64>)
        ensures
            final(self).timeout_ms == old(self).timeout_ms,
            match kind_of_method(method@) {
                Some(k) => final(self).waiters@ == unanswered(old(self).waiters@, k, url@)
                    && ids@ == answered_ids(old(self).waiters@, k, url@),
                None => final(self).waiters@ == old(self).waiters@ && ids@.len() == 0,
            },
    {
        let kind = if str_eq(method, "network.beforeRequestSent") {
            RequestKind::Request
        } else if str_eq(method, "network.responseCompleted") {
            RequestKind::Response
        } else if str_eq(method, "network.fetchError") {
            RequestKind::Error
        } else {
            return Vec::new();
        };
        let ghost ws = self.waiters@;
        let mut kept: Vec<UrlWaiter> = Vec::new();
        let mut ids: Vec<u64> = Vec::new();
        let mut i: usize = 0;
        while i < self.waiters.len()
            invariant
                self.waiters@ == ws,
                i <= ws.len(),
                kept@ == unanswered(ws.take(i as int), kind, url@),
                ids@ == answered_ids(ws.take(i as int), kind, url@),
            decreases ws.len() - i,
        {
            let w = &self.waiters[i];
            assert(ws.take(i + 1).drop_last() =~= ws.take(i as int));
            if w.kind == kind && str_contains(url, w.pattern.as_str()) {
                ids.push(w.id);
            } else {
                kept.push(copy_waiter(w));
            }
            i = i + 1;
        }
        assert(ws.take(ws.len() as int) =~= ws);
        self.waiters = kept;
        ids
    }

    /// Drops the waiters older than the timeout at `now_ms`, keeping the
    /// others in order.
    pub fn cleanup_expired(&mut self, now_ms: u64)
        ensures
            final(self).waiters@ == fresh_waiters(old(self).waiters@, now_ms, old(self).timeout_ms),
            final(self).timeout_ms == old(self).timeout_ms,
    {
        let ghost ws = self.waiters@;
        let mut kept: Vec<UrlWaiter> = Vec::new();
        let mut i: usize = 0;
        while i < self.waiters.len()
            invariant
                self.waiters@ == ws,
                i <= ws.len(),
                kept@ == fresh_waiters(ws.take(i as int), now_ms, self.timeout_ms),
            decreases ws.len() - i,
        {
            let w = &self.waiters[i];
            assert(ws.take(i + 1).drop_last() =~= ws.take(i as int));
            let age = if now_ms >= w.created_at_ms { now_ms - w.created_at_ms } else { 0 };
            if age < self.timeout_ms {
                kept.push(copy_waiter(w));
            }
            i = i + 1;
        }
        assert(ws.take(ws.len() as int) =~= ws);
        self.waiters = kept;
    }
}

proof fn lemma_partition(ws: Seq<UrlWaiter>, kind: RequestKind, url: Seq<char>)
    ensures
        answered_ids(ws, kind, url).len() + unanswered(ws, kind, url).len() == ws.len(),
        forall|i: int| 0 <= i < unanswered(ws, kind, url).len() ==> !answers(#[trigger] unanswered(ws, kind, url)[i], kind, url),
    decreases ws.len(),
{
    if ws.len() > 0 {
        lemma_partition(ws.drop_last(), kind, url);
    }
}

/// An event splits the waiters in two: those it answers, whose ids it
/// returns, and those it leaves, none of which it answers; no waiter is
/// lost or kept twice.
pub proof fn law_event_partitions_waiters(ws: Seq<UrlWaiter>, kind: RequestKind, url: Seq<char>)
    ensures
        answered_ids(ws, kind, url).len() + unanswered(ws, kind, url).len() == ws.len(),
        forall|i: int| 0 <= i < unanswered(ws, kind, url).len() ==> !answers(#[trigger] unanswered(ws, kind, url)[i], kind, url),
{
    lemma_partition(ws, kind, url);
}

} // verus!
