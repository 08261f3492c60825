use vstd::prelude::*;
use crate::ids::{new_uuid, is_hyphenated_uuid};
use crate::text::str_eq;

verus! {

/// A page kept for mounting components of one framework.
pub struct PooledContext {
    pub page_id: String,
    pub in_use: bool,
    pub last_used_ms: u64,
    pub framework: String,
}

/// Pages kept for mounting components, reused per framework, at most
/// `max_size` of them.
pub struct ComponentContextPool {
    contexts: Vec<PooledContext>,
    max_size: usize,
}

/// Counts of a pool's pages.
pub struct PoolStats {
    pub total_contexts: usize,
    pub in_use_contexts: usize,
    pub available_contexts: usize,
}

/// The first free page of `framework`, if any.
pub open spec fn first_free(cs: Seq<PooledContext>, framework: Seq<char>) -> Option<int>
    decreases cs.len(),
{
    if cs.len() == 0 {
        None
    } else if !cs[0].in_use && cs[0].framework@ == framework {
        Some(0)
    } else {
        match first_free(cs.drop_first(), framework) {
            Some(i) => Some(i + 1),
            None => None,
        }
    }
}

/// The first page with id `page_id` of `framework`, if any.
pub open spec fn find_page(cs: Seq<PooledContext>, framework: Seq<char>, page_id: Seq<char>) -> Option<int>
    decreases cs.len(),
{
    if cs.len() == 0 {
        None
    } else if cs[0].page_id@ == page_id && cs[0].framework@ == framework {
        Some(0)
    } else {
        match find_page(cs.drop_first(), framework, page_id) {
            Some(i) => Some(i + 1),
            None => None,
        }
    }
}

/// How many of the pages are in use.
pub open spec fn in_use_count(cs: Seq<PooledContext>) -> nat
    decreases cs.len(),
{
    if cs.len() == 0 {
        0
    } else {
        in_use_count(cs.drop_last()) + (if cs.last().in_use { 1nat } else { 0nat })
    }
}

/// The pages in use, in order.
pub open spec fn in_use_only(cs: Seq<PooledContext>) -> Seq<PooledContext>
    decreases cs.len(),
{
    if cs.len() == 0 {
        Seq::empty()
    } else if cs.last().in_use {
        in_use_only(cs.drop_last()).push(cs.last())
    } else {
        in_use_only(cs.drop_last())
    }
}

/// A page with its use flag and time of last use changed.
pub open spec fn touched(c: PooledContext, in_use: bool, now_ms: u64) -> PooledContext {
    PooledContext { in_use, last_used_ms: now_ms, ..c }
}

proof fn lemma_first_free(cs: Seq<PooledContext>, framework: Seq<char>)
    ensures
        match first_free(cs, framework) {
            Some(i) => 0 <= i < cs.len() && !cs[i].in_use && cs[i].framework@ == framework
                && forall|k: int| 0 <= k < i ==> !(!cs[k].in_use && cs[k].framework@ == framework),
            None => forall|k: int| 0 <= k < cs.len() ==> !(!cs[k].in_use && cs[k].framework@ == framework),
        },
    decreases cs.len(),
{
    if cs.len() > 0 {
        lemma_first_free(cs.drop_first(), framework);
        if !(!cs[0].in_use && cs[0].framework@ == framework) {
            match first_free(cs.drop_first(), framework) {
                Some(i) => {
                    assert forall|k: int| 0 <= k < i + 1 implies !(!cs[k].in_use && cs[k].framework@ == framework) by {
                        if k > 0 {
                            assert(cs[k] == cs.drop_first()[k - 1]);
                        }
                    }
                },
                None => {
                    assert forall|k: int| 0 <= k < cs.len() implies !(!cs[k].in_use && cs[k].framework@ == framework) by {
                        if k > 0 {
                            assert(cs[k] == cs.drop_first()[k - 1]);
                        }
                    }
                },
            }
        }
    }
}

proof fn lemma_find_page(cs: Seq<PooledContext>, framework: Seq<char>, page_id: Seq<char>)
    ensures
        match find_page(cs, framework, page_id) {
            Some(i) => 0 <= i < cs.len() && cs[i].page_id@ == page_id && cs[i].framework@ == framework
                && forall|k: int| 0 <= k < i ==> !(cs[k].page_id@ == page_id && cs[k].framework@ == framework),
            None => forall|k: int| 0 <= k < cs.len() ==> !(cs[k].page_id@ == page_id && cs[k].framework@ == framework),
        },
    decreases cs.len(),
{
    if cs.len() > 0 {
        lemma_find_page(cs.drop_first(), framework, page_id);
        if !(cs[0].page_id@ == page_id && cs[0].framework@ == framework) {
            match find_page(cs.drop_first(), framework, page_id) {
                Some(i) => {
                    assert forall|k: int| 0 <= k < i + 1 implies !(cs[k].page_id@ == page_id && cs[k].framework@ == framework) by {
                        if k > 0 {
                            assert(cs[k] == cs.drop_first()[k - 1]);
                        }
                    }
                },
                None => {
                    assert forall|k: int| 0 <= k < cs.len() implies !(cs[k].page_id@ == page_id && cs[k].framework@ == framework) by {
                        if k > 0 {
                            assert(cs[k] == cs.drop_first()[k - 1]);
                        }
                    }
                },
            }
        }
    }
}

/// The first index at or after which `pred` holds, given none before `i`.
proof fn lemma_first_free_from(cs: Seq<PooledContext>, framework: Seq<char>, i: int)
    requires
        0 <= i < cs.len(),
        !cs[i].in_use && cs[i].framework@ == framework,
        forall|k: int| 0 <= k < i ==> !(!cs[k].in_use && cs[k].framework@ == framework),
    ensures
        first_free(cs, framework) == Some(i),
{
    lemma_first_free(cs, framework);
    match first_free(cs, framework) {
        Some(j) => {
            assert(!(j < i));
            assert(!(i < j));
        },
        None => {},
    }
}

proof fn lemma_find_page_at(cs: Seq<PooledContext>, framework: Seq<char>, page_id: Seq<char>, i: int)
    requires
        0 <= i < cs.len(),
        cs[i].page_id@ == page_id && cs[i].framework@ == framework,
        forall|k: int| 0 <= k < i ==> !(cs[k].page_id@ == page_id && cs[k].framework@ == framework),
    ensures
        find_page(cs, framework, page_id) == Some(i),
{
    lemma_find_page(cs, framework, page_id);
    match find_page(cs, framework, page_id) {
        Some(j) => {
            assert(!(j < i));
            assert(!(i < j));
        },
        None => {},
    }
}

proof fn lemma_in_use_bounded(cs: Seq<PooledContext>)
    ensures
        in_use_count(cs) <= cs.len(),
    decreases cs.len(),
{
    if cs.len() > 0 {
        lemma_in_use_bounded(cs.drop_last());
    }
}

impl ComponentContextPool {
    /// An empty pool holding at most `max_size` pages.
    pub fn new(max_size: usize) -> (r: Self)
        ensures
            r.contexts().len() == 0,
            r.max_size() == max_size,
    {
        ComponentContextPool { contexts: Vec::new(), max_size }
    }

    /// The pages, in the order they were added.
    pub closed spec fn contexts(&self) -> Seq<PooledContext> {
        self.contexts@
    }

    /// The most pages the pool holds.
    pub closed spec fn max_size(&self) -> usize {
        self.max_size
    }

    fn free_index(&self, framework: &str) -> (r: Option<usize>)
        ensures
            match first_free(self.contexts(), framework@) {
                Some(i) => r == Some(i as usize),
                None => r.is_none(),
            },
    {
        let ghost cs = self.contexts@;
        let mut i: usize = 0;
        while i < self.contexts.len()
            invariant
                self.contexts@ == cs,
                i <= cs.len(),
                forall|k: int| 0 <= k < i ==> !(!cs[k].in_use && cs[k].framework@ == framework@),
            decreases cs.len() - i,
        {
            if !self.contexts[i].in_use && str_eq(self.contexts[i].framework.as_str(), framework) {
                proof {
                    lemma_first_free_from(cs, framework@, i as int);
                }
                return Some(i);
            }
            i = i + 1;
        }
        proof {
            lemma_first_free(cs, framework@);
        }
        None
    }

    fn page_index(&self, framework: &str, page_id: &str) -> (r: Option<usize>)
        ensures
            match find_page(self.contexts(), framework@, page_id@) {
                Some(i) => r == Some(i as usize),
                None => r.is_none(),
            },
    {
        let ghost cs = self.contexts@;
        let mut i: usize = 0;
        while i < self.contexts.len()
            invariant
                self.contexts@ == cs,
                i <= cs.len(),
                forall|k: int| 0 <= k < i ==> !(cs[k].page_id@ == page_id@ && cs[k].framework@ == framework@),
            decreases cs.len() - i,
        {
            if str_eq(self.contexts[i].page_id.as_str(), page_id) && str_eq(self.contexts[i].framework.as_str(), framework) {
                proof {
                    lemma_find_page_at(cs, framework@, page_id@, i as int);
                }
                return Some(i);
            }
            i = i + 1;
        }
        proof {
            lemma_find_page(cs, framework@, page_id@);
        }
        None
    }

    /// A page for `framework` at `now_ms`: the first free page of that
    /// framework, now in use; else, while the pool is below its size, a
    /// new page in use with a fresh id; else none, the pool unchanged.
    pub fn acquire(&mut self, framework: &str, now_ms: u64) -> (r: Option<String>)
        ensures
            final(self).max_size() == old(self).max_size(),
            match first_free(old(self).contexts(), framework@) {
                Some(i) => r == Some(old(self).contexts()[i].page_id)
                    && final(self).contexts() == old(self).contexts().update(i, touched(old(self).contexts()[i], true, now_ms)),
                None => if old(self).contexts().len() < old(self).max_size() {
                    r matches Some(id) && is_hyphenated_uuid(id@) && final(self).contexts() == old(self).contexts().push(
                        PooledContext { page_id: id, in_use: true, last_used_ms: now_ms, framework: final(self).contexts().last().framework },
                    ) && final(self).contexts().last().framework@ == framework@
                } else {
                    r.is_none() && final(self).contexts() == old(self).contexts()
                },
            },
            old(self).contexts().len() <= old(self).max_size() ==> final(self).contexts().len() <= final(self).max_size(),
    {
        let ghost cs = self.contexts@;
        proof {
            lemma_first_free(cs, framework@);
        }
        match self.free_index(framework) {
            Some(i) => {
                let id = self.contexts[i].page_id.clone();
                let old_ctx = self.contexts.remove(i);
                let new_ctx = PooledContext {
                    page_id: old_ctx.page_id,
                    in_use: true,
                    last_used_ms: now_ms,
                    framework: old_ctx.framework,
                };
                self.contexts.insert(i, new_ctx);
                assert(self.contexts@ =~= cs.update(i as int, touched(cs[i as int], true, now_ms)));
                return Some(id);
            },
            None => {},
        }
        if self.contexts.len() < self.max_size {
            let page_id = new_uuid();
            let id = page_id.clone();
            self.contexts.push(PooledContext {
                page_id,
                in_use: true,
                last_used_ms: now_ms,
                framework: framework.to_owned(),
            });
            return Some(id);
        }
        None
    }

    /// Gives back page `page_id` of `framework` at `now_ms`: the first page
    /// with that id and framework becomes free; nothing changes when there
    /// is none.
    pub fn release(&mut self, framework: &str, page_id: &str, now_ms: u64)
        ensures
            final(self).max_size() == old(self).max_size(),
            match find_page(old(self).contexts(), framework@, page_id@) {
                Some(i) => final(self).contexts() == old(self).contexts().update(i, touched(old(self).contexts()[i], false, now_ms)),
                None => final(self).contexts() == old(self).contexts(),
            },
    {
        let ghost cs = self.contexts@;
        proof {
            lemma_find_page(cs, framework@, page_id@);
        }
        match self.page_index(framework, page_id) {
            Some(i) => {
                let old_ctx = self.contexts.remove(i);
                let new_ctx = PooledContext {
                    page_id: old_ctx.page_id,
                    in_use: false,
                    last_used_ms: now_ms,
                    framework: old_ctx.framework,
                };
                self.contexts.insert(i, new_ctx);
                assert(self.contexts@ =~= cs.update(i as int, touched(cs[i as int], false, now_ms)));
                return;
            },
            None => {},
        }
    }

    /// Drops the free pages, keeping those in use in order.
    pub fn clear(&mut self)
        ensures
            final(self).max_size() == old(self).max_size(),
            final(self).contexts() == in_use_only(old(self).contexts()),
    {
        let ghost cs = self.contexts@;
        let ghost m = self.max_size;
        let mut kept: Vec<PooledContext> = Vec::new();
        while self.contexts.len() > 0
            invariant
                self.max_size == m,
                in_use_only(cs) == in_use_only(self.contexts@) + kept@,
            decreases self.contexts.len(),
        {
            let c = self.contexts.pop().unwrap();
            let ghost before = self.contexts@.push(c);
            assert(before.drop_last() =~= self.contexts@);
            if c.in_use {
                kept.insert(0, c);
            }
            assert(in_use_only(cs) =~= in_use_only(self.contexts@) + kept@);
        }
        assert(in_use_only(self.contexts@) =~= Seq::<PooledContext>::empty());
        self.contexts = kept;
    }

    /// The number of pages, of those in use, and of free ones.
    pub fn stats(&self) -> (r: PoolStats)
        ensures
            r.total_contexts == self.contexts().len(),
            r.in_use_contexts == in_use_count(self.contexts()),
            r.available_contexts == self.contexts().len() - in_use_count(self.contexts()),
    {
        let ghost cs = self.contexts@;
        let mut in_use: usize = 0;
        let mut i: usize = 0;
        while i < self.contexts.len()
            invariant
                self.contexts@ == cs,
                i <= cs.len(),
                in_use == in_use_count(cs.take(i as int)),
            decreases cs.len() - i,
        {
            assert(cs.take(i + 1).drop_last() =~= cs.take(i as int));
            proof {
                lemma_in_use_bounded(cs.take(i as int));
            }
            if self.contexts[i].in_use {
                in_use = in_use + 1;
            }
            i = i + 1;
        }
        assert(cs.take(cs.len() as int) =~= cs);
        proof {
            lemma_in_use_bounded(cs);
        }
        PoolStats {
            total_contexts: self.contexts.len(),
            in_use_contexts: in_use,
            available_contexts: self.contexts.len() - in_use,
        }
    }
}

impl Default for ComponentContextPool {
    fn default() -> (r: Self)
        ensures
            r.contexts().len() == 0,
            r.max_size() == 10,
    {
        Self::new(10)
    }
}

/// A page given back while no other free page of its framework is left is
/// the page the next request for that framework gets.
pub proof fn law_released_page_is_reused(
    cs: Seq<PooledContext>,
    framework: Seq<char>,
    page_id: Seq<char>,
    now: u64,
)
    requires
        first_free(cs, framework).is_none(),
        find_page(cs, framework, page_id).is_some(),
    ensures
        first_free(
            cs.update(find_page(cs, framework, page_id).unwrap(), touched(cs[find_page(cs, framework, page_id).unwrap()], false, now)),
            framework,
        ) == find_page(cs, framework, page_id),
{
    lemma_first_free(cs, framework);
    lemma_find_page(cs, framework, page_id);
    let i = find_page(cs, framework, page_id).unwrap();
    let t = cs.update(i, touched(cs[i], false, now));
    assert forall|k: int| 0 <= k < i implies !(!t[k].in_use && t[k].framework@ == framework) by {
        assert(t[k] == cs[k]);
    }
    lemma_first_free_from(t, framework, i);
}

} // verus!
