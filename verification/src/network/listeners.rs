use vstd::prelude::*;
use crate::keyed::StrMap;
use crate::text::{push_str, string_from_chars, has_prefix};

verus! {

/// The key under which an owner's listeners for an event are kept:
/// `owner:event`.
pub open spec fn listener_key(owner: Seq<char>, event: Seq<char>) -> Seq<char> {
    owner + ":"@ + event
}

fn key_of(owner: &str, event: &str) -> (r: String)
    ensures
        r@ == listener_key(owner@, event@),
{
    let mut out: Vec<char> = Vec::new();
    push_str(&mut out, owner);
    push_str(&mut out, ":");
    push_str(&mut out, event);
    string_from_chars(&out)
}

fn owner_prefix(owner: &str) -> (r: String)
    ensures
        r@ == owner@ + ":"@,
{
    let mut out: Vec<char> = Vec::new();
    push_str(&mut out, owner);
    push_str(&mut out, ":");
    string_from_chars(&out)
}

/// The lists of a map of them.
pub open spec fn lists_view<C>(m: Map<Seq<char>, Vec<C>>) -> Map<Seq<char>, Seq<C>> {
    m.map_values(|v: Vec<C>| v@)
}

/// The listeners of pages or contexts (their owners) for named events,
/// each list in the order of registration.
pub struct ListenerRegistry<C> {
    listeners: StrMap<Vec<C>>,
}

impl<C> ListenerRegistry<C> {
    /// The listeners kept under each key (see `listener_key`).
    pub closed spec fn lists(self) -> Map<Seq<char>, Seq<C>> {
        lists_view(self.listeners.map())
    }

    /// No listeners.
    pub fn new() -> (r: Self)
        ensures
            r.lists() == Map::<Seq<char>, Seq<C>>::empty(),
    {
        let r = ListenerRegistry { listeners: StrMap::new() };
        assert(r.lists() =~= Map::<Seq<char>, Seq<C>>::empty());
        r
    }

    /// Adds `callback` after the listeners of `owner` for `event`.
    pub fn register(&mut self, owner: &str, event: &str, callback: C)
        ensures
            final(self).lists() == old(self).lists().insert(
                listener_key(owner@, event@),
                (if old(self).lists().contains_key(listener_key(owner@, event@)) {
                    old(self).lists()[listener_key(owner@, event@)]
                } else {
                    Seq::empty()
                }).push(callback),
            ),
    {
        let key = key_of(owner, event);
        let ghost before = self.listeners.map();
        let mut list = match self.listeners.take(key.as_str()) {
            Some(v) => v,
            None => Vec::new(),
        };
        list.push(callback);
        self.listeners.insert(key.as_str(), list);
        proof {
            assert(lists_view(self.listeners.map()) =~= lists_view(before).insert(
                listener_key(owner@, event@),
                (if lists_view(before).contains_key(listener_key(owner@, event@)) {
                    lists_view(before)[listener_key(owner@, event@)]
                } else {
                    Seq::empty()
                }).push(callback),
            ));
        }
    }

    /// Drops the listeners of `owner` for `event`.
    pub fn unregister(&mut self, owner: &str, event: &str)
        ensures
            final(self).lists() == old(self).lists().remove(listener_key(owner@, event@)),
    {
        let key = key_of(owner, event);
        let ghost before = self.listeners.map();
        let _ = self.listeners.take(key.as_str());
        assert(lists_view(self.listeners.map()) =~= lists_view(before).remove(listener_key(owner@, event@)));
    }

    /// Drops every list whose key starts with `owner:`.
    pub fn unregister_all(&mut self, owner: &str)
        ensures
            final(self).lists() == old(self).lists().remove_keys(
                Set::new(|k: Seq<char>| has_prefix(k, owner@ + ":"@)),
            ),
    {
        let prefix = owner_prefix(owner);
        let ghost before = self.listeners.map();
        self.listeners.remove_prefixed(prefix.as_str());
        assert(lists_view(self.listeners.map()) =~= lists_view(before).remove_keys(
            Set::new(|k: Seq<char>| has_prefix(k, owner@ + ":"@)),
        ));
    }

    /// The listeners of `owner` for `event`, in the order of registration
    /// (none when there are none).
    pub fn listeners(&self, owner: &str, event: &str) -> (r: Option<&Vec<C>>)
        ensures
            match r {
                Some(v) => self.lists().contains_key(listener_key(owner@, event@))
                    && self.lists()[listener_key(owner@, event@)] == v@,
                None => !self.lists().contains_key(listener_key(owner@, event@)),
            },
    {
        let key = key_of(owner, event);
        self.listeners.get(key.as_str())
    }
}

/// After all of an owner's listeners are dropped, it has none left for
/// any event.
pub proof fn law_unregister_all_leaves_none<C>(lists: Map<Seq<char>, Seq<C>>, owner: Seq<char>, event: Seq<char>)
    ensures
        !lists.remove_keys(Set::new(|k: Seq<char>| has_prefix(k, owner + ":"@))).contains_key(listener_key(owner, event)),
{
    let key = listener_key(owner, event);
    assert(key.take((owner + ":"@).len() as int) =~= owner + ":"@);
    assert(Set::new(|k: Seq<char>| has_prefix(k, owner + ":"@)).contains(key));
}

} // verus!
