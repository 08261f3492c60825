use vstd::prelude::*;
use crate::keyed::StrMap;

verus! {

/// How long a binding call waits for its answer, in milliseconds.
pub const BINDING_TIMEOUT_MS: u64 = 30000;

/// The answer a binding message carries: its data (if any) when `ok` is
/// `true`, else its error, or `Unknown error from injected script` without
/// one.
pub open spec fn binding_outcome_spec<D>(ok: Option<bool>, data: Option<D>, error: Option<Seq<char>>) -> Result<Option<D>, Seq<char>> {
    if ok == Some(true) {
        Ok(data)
    } else {
        Err(match error {
            Some(e) => e,
            None => "Unknown error from injected script"@,
        })
    }
}

/// The text of an answer.
pub open spec fn outcome_view<D>(r: Result<Option<D>, String>) -> Result<Option<D>, Seq<char>> {
    match r {
        Ok(d) => Ok(d),
        Err(e) => Err(e@),
    }
}

/// The answer of a binding message (see `binding_outcome_spec`).
pub fn binding_outcome<D>(ok: Option<bool>, data: Option<D>, error: Option<String>) -> (r: Result<Option<D>, String>)
    ensures
        outcome_view(r) == binding_outcome_spec(ok, data, match error {
            Some(e) => Some(e@),
            None => None,
        }),
{
    if ok == Some(true) {
        Ok(data)
    } else {
        match error {
            Some(e) => Err(e),
            None => Err(String::from_str("Unknown error from injected script")),
        }
    }
}

/// The binding calls of injected scripts that wait for an answer, each by
/// its id with the channel `S` its answer goes to. An entry leaves when
/// its answer arrives or it is removed.
pub struct BindingRegistry<S> {
    pending: StrMap<S>,
}

impl<S> BindingRegistry<S> {
    /// The waiting calls, by id.
    pub closed spec fn waiting(self) -> Map<Seq<char>, S> {
        self.pending.map()
    }

    /// Finitely many calls wait.
    pub proof fn lemma_waiting_finite(&self)
        ensures
            self.waiting().dom().finite(),
    {
        self.pending.lemma_map_finite();
    }

    /// No call waiting.
    pub fn new() -> (r: Self)
        ensures
            r.waiting() == Map::<Seq<char>, S>::empty(),
    {
        BindingRegistry { pending: StrMap::new() }
    }

    /// Waits for the answer of call `id` on `tx`, replacing any earlier
    /// wait of that id.
    pub fn register(&mut self, id: &str, tx: S)
        ensures
            final(self).waiting() == old(self).waiting().insert(id@, tx),
            final(self).waiting().len() == old(self).waiting().len() + if old(self).waiting().contains_key(id@) {
                0int
            } else {
                1int
            },
    {
        proof {
            self.lemma_waiting_finite();
        }
        self.pending.insert(id, tx);
    }

    /// Stops waiting for call `id`; whether it was waiting.
    pub fn remove(&mut self, id: &str) -> (r: bool)
        ensures
            final(self).waiting() == old(self).waiting().remove(id@),
            r == old(self).waiting().contains_key(id@),
            final(self).waiting().len() == old(self).waiting().len() - if r {
                1int
            } else {
                0int
            },
    {
        proof {
            self.lemma_waiting_finite();
        }
        match self.pending.take(id) {
            Some(_) => true,
            None => false,
        }
    }

    /// The answer to a binding message of call `id`: the channel the call
    /// waited on, which no longer waits, with the answer for it (see
    /// `binding_outcome_spec`); nothing for a call not waiting.
    pub fn dispatch<D>(&mut self, id: &str, ok: Option<bool>, data: Option<D>, error: Option<String>) -> (r: Option<(S, Result<Option<D>, String>)>)
        ensures
            final(self).waiting() == old(self).waiting().remove(id@),
            match r {
                Some((tx, answer)) => old(self).waiting().contains_key(id@) && old(self).waiting()[id@] == tx
                    && outcome_view(answer) == binding_outcome_spec(ok, data, match error {
                        Some(e) => Some(e@),
                        None => None,
                    }),
                None => !old(self).waiting().contains_key(id@),
            },
            final(self).waiting().len() == old(self).waiting().len() - if r is Some {
                1int
            } else {
                0int
            },
    {
        proof {
            self.lemma_waiting_finite();
        }
        match self.pending.take(id) {
            Some(tx) => Some((tx, binding_outcome(ok, data, error))),
            None => None,
        }
    }

    /// How many calls wait.
    pub fn pending_count(&self) -> (n: usize)
        ensures
            n == self.waiting().len(),
            self.waiting().dom().finite(),
    {
        proof {
            self.lemma_waiting_finite();
        }
        self.pending.len()
    }
}

/// A call registered on `tx` is answered on `tx`: after `register`, the
/// waiting calls hold `tx` for that id, whatever waited there before, and a
/// dispatch for the id hands back `tx`. Once a call is removed, removing it
/// again reports that it was not waiting.
pub proof fn law_answer_goes_to_last_registration<S>(waiting: Map<Seq<char>, S>, id: Seq<char>, tx: S)
    ensures
        waiting.insert(id, tx).contains_key(id),
        waiting.insert(id, tx)[id] == tx,
        !waiting.remove(id).contains_key(id),
{
}

} // verus!
