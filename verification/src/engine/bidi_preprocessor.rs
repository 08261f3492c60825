use vstd::prelude::*;
use crate::text::str_eq;

verus! {

/// Whether events of `method` are too frequent to forward: mouse moves,
/// scrolls and DOM mutations.
pub open spec fn is_dropped_method(method: Seq<char>) -> bool {
    method == "input.mouseMove"@ || method == "input.scroll"@ || method == "dom.mutation"@
}

/// The text of an optional string.
pub open spec fn opt_str_view(method: Option<&str>) -> Option<Seq<char>> {
    match method {
        Some(m) => Some(m@),
        None => None,
    }
}

/// The time since `last` at `now`, in milliseconds (none before it).
pub open spec fn elapsed_since(last: u64, now: u64) -> int {
    if now >= last { now - last } else { 0 }
}

/// The state of a batcher: its window, when it last handed out its buffer,
/// and the buffer.
pub struct BatchState<T> {
    pub window: u64,
    pub last_flush: u64,
    pub buffer: Seq<T>,
}

/// Whether an event of the given method (if it has one) is dropped.
pub open spec fn dropped_method(method: Option<Seq<char>>) -> bool {
    match method {
        Some(m) => is_dropped_method(m),
        None => false,
    }
}

/// One event taken in at `now`: a dropped one changes nothing; another is
/// buffered, and the buffer handed out (and emptied, and the time noted)
/// when the window has passed since the last hand-out.
pub open spec fn step_spec<T>(s: BatchState<T>, method: Option<Seq<char>>, event: T, now: u64) -> (Option<Seq<T>>, BatchState<T>) {
    if dropped_method(method) {
        (None, s)
    } else if elapsed_since(s.last_flush, now) >= s.window {
        (Some(s.buffer.push(event)), BatchState { window: s.window, last_flush: now, buffer: Seq::empty() })
    } else {
        (None, BatchState { window: s.window, last_flush: s.last_flush, buffer: s.buffer.push(event) })
    }
}

/// The events handed out, in order, while taking in `events` (each a
/// method, an event and a time) from state `s`, and the state after.
pub open spec fn run_spec<T>(s: BatchState<T>, events: Seq<(Option<Seq<char>>, T, u64)>) -> (Seq<T>, BatchState<T>)
    decreases events.len(),
{
    if events.len() == 0 {
        (Seq::empty(), s)
    } else {
        let (out, s1) = run_spec(s, events.drop_last());
        let e = events.last();
        let (batch, s2) = step_spec(s1, e.0, e.1, e.2);
        (out + match batch {
            Some(b) => b,
            None => Seq::empty(),
        }, s2)
    }
}

/// The events that are not dropped, in order.
pub open spec fn accepted_events<T>(events: Seq<(Option<Seq<char>>, T, u64)>) -> Seq<T>
    decreases events.len(),
{
    if events.len() == 0 {
        Seq::empty()
    } else {
        accepted_events(events.drop_last()) + if dropped_method(events.last().0) {
            Seq::empty()
        } else {
            seq![events.last().1]
        }
    }
}

/// Batching loses, repeats and reorders nothing: whatever the times, the
/// events handed out followed by those still buffered are the events
/// buffered at the start followed by every event taken in that is not
/// dropped.
pub proof fn law_batching_keeps_every_event<T>(s: BatchState<T>, events: Seq<(Option<Seq<char>>, T, u64)>)
    ensures
        run_spec(s, events).0 + run_spec(s, events).1.buffer == s.buffer + accepted_events(events),
    decreases events.len(),
{
    if events.len() > 0 {
        law_batching_keeps_every_event(s, events.drop_last());
        let (out, s1) = run_spec(s, events.drop_last());
        let e = events.last();
        let (batch, s2) = step_spec(s1, e.0, e.1, e.2);
        if dropped_method(e.0) {
            assert(out + Seq::<T>::empty() =~= out);
            assert(accepted_events(events.drop_last()) + Seq::<T>::empty() =~= accepted_events(events.drop_last()));
        } else if elapsed_since(s1.last_flush, e.2) >= s1.window {
            let acc = accepted_events(events.drop_last());
            assert(out + s1.buffer == s.buffer + acc);
            assert((out + s1.buffer).push(e.1) =~= out + s1.buffer.push(e.1));
            assert((s.buffer + acc).push(e.1) =~= s.buffer + (acc + seq![e.1]));
            assert((out + s1.buffer.push(e.1)) + Seq::<T>::empty() =~= out + s1.buffer.push(e.1));
        } else {
            let acc = accepted_events(events.drop_last());
            assert(out + s1.buffer == s.buffer + acc);
            assert((out + s1.buffer).push(e.1) =~= out + s1.buffer.push(e.1));
            assert((s.buffer + acc).push(e.1) =~= s.buffer + (acc + seq![e.1]));
            assert(out + Seq::<T>::empty() =~= out);
        }
    }
}

/// Batches BiDi events: the noisy ones are dropped, the others buffered
/// and handed out together once the batch window has passed since the
/// last hand-out. Times are milliseconds on a clock of the caller's.
pub struct BidiPreprocessor<T> {
    batch_window_ms: u64,
    last_flush_ms: u64,
    buffer: Vec<T>,
}

impl<T> BidiPreprocessor<T> {
    /// The batcher's state.
    pub closed spec fn state(&self) -> BatchState<T> {
        BatchState { window: self.batch_window_ms, last_flush: self.last_flush_ms, buffer: self.buffer@ }
    }

    /// The batch window.
    pub closed spec fn window(&self) -> u64 {
        self.batch_window_ms
    }

    /// When the buffer was last handed out (or the batcher made).
    pub closed spec fn last_flush(&self) -> u64 {
        self.last_flush_ms
    }

    /// The events waiting, oldest first.
    pub closed spec fn buffered(&self) -> Seq<T> {
        self.buffer@
    }

    /// A batcher with an empty buffer, made at `now_ms`.
    pub fn new(batch_window_ms: u64, now_ms: u64) -> (r: Self)
        ensures
            r.window() == batch_window_ms,
            r.last_flush() == now_ms,
            r.buffered() == Seq::<T>::empty(),
    {
        BidiPreprocessor { batch_window_ms, last_flush_ms: now_ms, buffer: Vec::new() }
    }

    /// Whether events of `method` are dropped (see `is_dropped_method`).
    pub fn drops_method(method: &str) -> (r: bool)
        ensures
            r == is_dropped_method(method@),
    {
        str_eq(method, "input.mouseMove") || str_eq(method, "input.scroll") || str_eq(method, "dom.mutation")
    }

    /// Hands out the buffered events at `now_ms`, if there are any; the
    /// buffer is then empty and the hand-out time `now_ms`. With nothing
    /// buffered nothing changes.
    pub fn flush(&mut self, now_ms: u64) -> (r: Option<Vec<T>>)
        ensures
            final(self).window() == old(self).window(),
            old(self).buffered().len() == 0 ==> r is None && final(self).buffered() == old(self).buffered()
                && final(self).last_flush() == old(self).last_flush(),
            old(self).buffered().len() > 0 ==> (r matches Some(b) && b@ == old(self).buffered()
                && final(self).buffered() == Seq::<T>::empty() && final(self).last_flush() == now_ms),
    {
        if self.buffer.len() == 0 {
            None
        } else {
            let mut batch: Vec<T> = Vec::new();
            std::mem::swap(&mut batch, &mut self.buffer);
            self.last_flush_ms = now_ms;
            Some(batch)
        }
    }

    /// Takes in an event of `method` (if it has one) at `now_ms`, handing
    /// out a batch when one is due (see `step_spec`).
    pub fn process_event(&mut self, method: Option<&str>, event: T, now_ms: u64) -> (r: Option<Vec<T>>)
        ensures
            ({
                let (batch, next) = step_spec(old(self).state(), opt_str_view(method), event, now_ms);
                &&& final(self).state() == next
                &&& match r {
                    Some(b) => batch == Some(b@),
                    None => batch is None,
                }
            }),
    {
        match method {
            Some(m) => {
                if Self::drops_method(m) {
                    return None;
                }
            },
            None => {},
        }
        self.buffer.push(event);
        let elapsed = now_ms.saturating_sub(self.last_flush_ms);
        if elapsed >= self.batch_window_ms {
            self.flush(now_ms)
        } else {
            None
        }
    }
}

} // verus!
