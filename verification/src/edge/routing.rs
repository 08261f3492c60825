use vstd::prelude::*;
use crate::text::str_eq;

verus! {

/// How requests are routed to grid nodes.
#[derive(Debug, Clone)]
pub struct RoutingConfig {
    pub enable_latency_routing: bool,
    pub latency_check_interval_secs: u64,
    pub max_latency_threshold_ms: u32,
    pub fallback_to_closest: bool,
}

impl Default for RoutingConfig {
    fn default() -> (r: Self)
        ensures
            r.enable_latency_routing,
            r.latency_check_interval_secs == 30,
            r.max_latency_threshold_ms == 500,
            r.fallback_to_closest,
    {
        RoutingConfig {
            enable_latency_routing: true,
            latency_check_interval_secs: 30,
            max_latency_threshold_ms: 500,
            fallback_to_closest: true,
        }
    }
}

/// What a grid node offers: browsers, how many jobs at once, and tags.
pub struct NodeCapabilities {
    pub browsers: Vec<String>,
    pub max_concurrent: usize,
    pub tags: Vec<String>,
}

/// Whether `s` is one of the strings of `v`.
pub open spec fn contains_text(v: Seq<String>, s: Seq<char>) -> bool {
    exists|i: int| 0 <= i < v.len() && #[trigger] v[i]@ == s
}

fn strings_contain(v: &Vec<String>, s: &str) -> (r: bool)
    ensures
        r == contains_text(v@, s@),
{
    let mut i: usize = 0;
    while i < v.len()
        invariant
            i <= v@.len(),
            forall|k: int| 0 <= k < i ==> #[trigger] v@[k]@ != s@,
        decreases v.len() - i,
    {
        if str_eq(v[i].as_str(), s) {
            return true;
        }
        i = i + 1;
    }
    false
}

impl NodeCapabilities {
    /// Whether the node offers `browser`.
    pub fn can_run_browser(&self, browser: &str) -> (r: bool)
        ensures
            r == contains_text(self.browsers@, browser@),
    {
        strings_contain(&self.browsers, browser)
    }

    /// Whether the node has every tag of `required` (true when none is
    /// required).
    pub fn has_tags(&self, required: &[String]) -> (r: bool)
        ensures
            r == forall|i: int| 0 <= i < required@.len() ==> contains_text(self.tags@, #[trigger] required@[i]@),
    {
        let mut i: usize = 0;
        while i < required.len()
            invariant
                i <= required@.len(),
                forall|k: int| 0 <= k < i ==> contains_text(self.tags@, #[trigger] required@[k]@),
            decreases required.len() - i,
        {
            if !strings_contain(&self.tags, required[i].as_str()) {
                return false;
            }
            i = i + 1;
        }
        true
    }
}

/// Whether a node can take another job: fewer active jobs than its maximum.
pub fn has_capacity(active_jobs: usize, max_jobs: usize) -> (r: bool)
    ensures
        r == (active_jobs < max_jobs),
{
    active_jobs < max_jobs
}

/// A grid node as routing sees it: what it offers and how busy it is.
pub struct NodeStatus {
    pub capabilities: NodeCapabilities,
    pub active_jobs: usize,
    pub max_jobs: usize,
}

/// Whether a node can take a job for `browser` with every tag of
/// `required`: it offers the browser, has the tags, and has room.
pub open spec fn node_eligible(n: NodeStatus, browser: Seq<char>, required: Seq<String>) -> bool {
    &&& contains_text(n.capabilities.browsers@, browser)
    &&& forall|i: int| 0 <= i < required.len() ==> contains_text(n.capabilities.tags@, #[trigger] required[i]@)
    &&& n.active_jobs < n.max_jobs
}

/// The positions of the nodes that can take a job for `browser` with the
/// tags `required`, in increasing order.
pub fn eligible_nodes(nodes: &[NodeStatus], browser: &str, required: &[String]) -> (r: Vec<usize>)
    ensures
        forall|k: int| 0 <= k < r@.len() ==> #[trigger] r@[k] < nodes@.len(),
        forall|j: int, k: int| 0 <= j < k < r@.len() ==> r@[j] < r@[k],
        forall|i: usize| i < nodes@.len() ==> (#[trigger] r@.contains(i) <==> node_eligible(nodes@[i as int], browser@, required@)),
{
    let mut r: Vec<usize> = Vec::new();
    let mut i: usize = 0;
    while i < nodes.len()
        invariant
            i <= nodes@.len(),
            forall|k: int| 0 <= k < r@.len() ==> #[trigger] r@[k] < i,
            forall|j: int, k: int| 0 <= j < k < r@.len() ==> r@[j] < r@[k],
            forall|m: usize| m < i ==> (#[trigger] r@.contains(m) <==> node_eligible(nodes@[m as int], browser@, required@)),
        decreases nodes.len() - i,
    {
        let n = &nodes[i];
        let ok = n.capabilities.can_run_browser(browser) && n.capabilities.has_tags(required)
            && has_capacity(n.active_jobs, n.max_jobs);
        let ghost before = r@;
        if ok {
            r.push(i);
            assert forall|m: usize| m < i implies (#[trigger] r@.contains(m) == before.contains(m)) by {
                if r@.contains(m) {
                    let k = choose|k: int| 0 <= k < r@.len() && r@[k] == m;
                    if k < before.len() {
                        assert(before[k] == m);
                    }
                }
                if before.contains(m) {
                    let k = choose|k: int| 0 <= k < before.len() && before[k] == m;
                    assert(r@[k] == m);
                }
            }
            assert(r@[r@.len() - 1] == i);
        } else {
            assert(!r@.contains(i)) by {
                if r@.contains(i) {
                    let k = choose|k: int| 0 <= k < r@.len() && r@[k] == i;
                }
            }
        }
        i = i + 1;
    }
    r
}

/// `(i, l)`: `l` is the lowest latency known among `ls`, and `i` the first
/// position where it is known.
pub open spec fn is_lowest_latency(ls: Seq<Option<u32>>, i: int, l: u32) -> bool {
    &&& 0 <= i < ls.len()
    &&& ls[i] == Some(l)
    &&& forall|k: int| 0 <= k < ls.len() && ls[k] is Some ==> l <= ls[k]->0
    &&& forall|k: int| 0 <= k < i && ls[k] is Some ==> l < ls[k]->0
}

/// The node of lowest known latency, the first of several equal ones:
/// its position and latency; none when no latency is known.
pub fn lowest_latency(latencies: &[Option<u32>]) -> (r: Option<(usize, u32)>)
    ensures
        match r {
            Some((i, l)) => is_lowest_latency(latencies@, i as int, l),
            None => forall|k: int| 0 <= k < latencies@.len() ==> latencies@[k] is None,
        },
{
    let mut best: Option<(usize, u32)> = None;
    let mut i: usize = 0;
    while i < latencies.len()
        invariant
            i <= latencies@.len(),
            match best {
                Some((b, l)) => {
                    &&& b < i
                    &&& latencies@[b as int] == Some(l)
                    &&& forall|k: int| 0 <= k < i && latencies@[k] is Some ==> l <= latencies@[k]->0
                    &&& forall|k: int| 0 <= k < b && latencies@[k] is Some ==> l < latencies@[k]->0
                },
                None => forall|k: int| 0 <= k < i ==> latencies@[k] is None,
            },
        decreases latencies.len() - i,
    {
        match latencies[i] {
            Some(l) => {
                match best {
                    Some((_, bl)) => {
                        if l < bl {
                            best = Some((i, l));
                        }
                    },
                    None => {
                        best = Some((i, l));
                    },
                }
            },
            None => {},
        }
        i = i + 1;
    }
    best
}

/// Latency routing among candidates: the node of lowest known latency
/// (the first of equals), taken when its latency is within the threshold
/// or, beyond it, when falling back to the closest node is allowed; none
/// when no latency is known or neither holds.
pub fn route_by_latency(latencies: &[Option<u32>], config: &RoutingConfig) -> (r: Option<(usize, u32)>)
    ensures
        match r {
            Some((i, l)) => is_lowest_latency(latencies@, i as int, l)
                && (l <= config.max_latency_threshold_ms || config.fallback_to_closest),
            None => (forall|k: int| 0 <= k < latencies@.len() ==> latencies@[k] is None)
                || (exists|i: int, l: u32| is_lowest_latency(latencies@, i, l)
                    && l > config.max_latency_threshold_ms && !config.fallback_to_closest),
        },
{
    match lowest_latency(latencies) {
        Some((i, l)) => {
            if l <= config.max_latency_threshold_ms || config.fallback_to_closest {
                Some((i, l))
            } else {
                None
            }
        },
        None => None,
    }
}

/// Counts over the nodes of a router.
pub struct RoutingMetrics {
    pub total_nodes: usize,
    pub available_nodes: usize,
    pub nodes_with_latency: usize,
    pub average_latency_ms: Option<u32>,
}

/// How many latencies are known.
pub open spec fn known_count(ls: Seq<Option<u32>>) -> nat
    decreases ls.len(),
{
    if ls.len() == 0 {
        0
    } else {
        known_count(ls.drop_last()) + (if ls.last() is Some { 1nat } else { 0nat })
    }
}

/// The known latencies added up.
pub open spec fn latency_sum(ls: Seq<Option<u32>>) -> nat
    decreases ls.len(),
{
    if ls.len() == 0 {
        0
    } else {
        latency_sum(ls.drop_last()) + (match ls.last() {
            Some(l) => l as nat,
            None => 0nat,
        })
    }
}

/// How many of the flags are set.
pub open spec fn true_count(bs: Seq<bool>) -> nat
    decreases bs.len(),
{
    if bs.len() == 0 {
        0
    } else {
        true_count(bs.drop_last()) + (if bs.last() { 1nat } else { 0nat })
    }
}

proof fn lemma_prefix_sum(ls: Seq<Option<u32>>, i: int)
    requires
        0 <= i <= ls.len(),
    ensures
        latency_sum(ls.take(i)) <= latency_sum(ls),
    decreases ls.len() - i,
{
    if i < ls.len() {
        lemma_prefix_sum(ls, i + 1);
        assert(ls.take(i + 1).drop_last() =~= ls.take(i));
    } else {
        assert(ls.take(i) =~= ls);
    }
}

proof fn lemma_known_bounded(ls: Seq<Option<u32>>)
    ensures
        known_count(ls) <= ls.len(),
    decreases ls.len(),
{
    if ls.len() > 0 {
        lemma_known_bounded(ls.drop_last());
    }
}

impl RoutingMetrics {
    /// The metrics of nodes whose latencies (if known) and capacity are
    /// given position by position: the number of nodes, of those with
    /// capacity, of those with a known latency, and the average known
    /// latency rounded down (none when no latency is known).
    pub fn from_nodes(latencies: &[Option<u32>], available: &[bool]) -> (m: Self)
        requires
            latencies@.len() == available@.len(),
            latencies@.len() <= u32::MAX,
            latency_sum(latencies@) <= u32::MAX,
        ensures
            m.total_nodes == latencies@.len(),
            m.available_nodes == true_count(available@),
            m.nodes_with_latency == known_count(latencies@),
            m.average_latency_ms == (if known_count(latencies@) == 0 {
                None::<u32>
            } else {
                Some((latency_sum(latencies@) / known_count(latencies@)) as u32)
            }),
    {
        let ghost ls = latencies@;
        let mut known: usize = 0;
        let mut sum: u32 = 0;
        let mut i: usize = 0;
        while i < latencies.len()
            invariant
                ls == latencies@,
                i <= ls.len(),
                latency_sum(ls) <= u32::MAX,
                ls.len() <= u32::MAX,
                known == known_count(ls.take(i as int)),
                sum == latency_sum(ls.take(i as int)),
            decreases ls.len() - i,
        {
            proof {
                lemma_prefix_sum(ls, i + 1);
                lemma_known_bounded(ls.take(i + 1));
                assert(ls.take(i + 1).drop_last() =~= ls.take(i as int));
            }
            match latencies[i] {
                Some(l) => {
                    known = known + 1;
                    sum = sum + l;
                },
                None => {},
            }
            i = i + 1;
        }
        assert(ls.take(ls.len() as int) =~= ls);
        proof {
            lemma_known_bounded(ls);
        }
        let ghost bs = available@;
        let mut avail: usize = 0;
        let mut j: usize = 0;
        while j < available.len()
            invariant
                bs == available@,
                j <= bs.len(),
                avail == true_count(bs.take(j as int)),
                avail <= j,
            decreases bs.len() - j,
        {
            assert(bs.take(j + 1).drop_last() =~= bs.take(j as int));
            if available[j] {
                avail = avail + 1;
            }
            j = j + 1;
        }
        assert(bs.take(bs.len() as int) =~= bs);
        let average = if known == 0 {
            None
        } else {
            Some(sum / (known as u32))
        };
        RoutingMetrics {
            total_nodes: latencies.len(),
            available_nodes: avail,
            nodes_with_latency: known,
            average_latency_ms: average,
        }
    }
}

} // verus!
