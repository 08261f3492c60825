use vstd::prelude::*;
use crate::plugin::discovery::PluginInfo;
use crate::text::{str_eq, push_str, string_from_chars};

verus! {

/// A reporter provided by a plugin.
pub struct ReporterPlugin {
    pub name: String,
    pub path: String,
    pub enabled: bool,
}

/// Matchers provided by a plugin.
pub struct MatcherPlugin {
    pub name: String,
    pub path: String,
    pub matcher_names: Vec<String>,
    pub enabled: bool,
}

/// The plugins registered, in the order they were registered.
pub struct PluginRegistry {
    pub reporters: Vec<ReporterPlugin>,
    pub matchers: Vec<MatcherPlugin>,
    pub plugins: Vec<PluginInfo>,
}

/// The position of the first reporter named `name`, if any.
pub open spec fn reporter_index(rs: Seq<ReporterPlugin>, name: Seq<char>) -> Option<int>
    decreases rs.len(),
{
    if rs.len() == 0 {
        None
    } else if rs[0].name@ == name {
        Some(0)
    } else {
        match reporter_index(rs.drop_first(), name) {
            Some(i) => Some(i + 1),
            None => None,
        }
    }
}

/// The position of the first matcher plugin named `name`, if any.
pub open spec fn matcher_index(ms: Seq<MatcherPlugin>, name: Seq<char>) -> Option<int>
    decreases ms.len(),
{
    if ms.len() == 0 {
        None
    } else if ms[0].name@ == name {
        Some(0)
    } else {
        match matcher_index(ms.drop_first(), name) {
            Some(i) => Some(i + 1),
            None => None,
        }
    }
}

proof fn lemma_reporter_index(rs: Seq<ReporterPlugin>, name: Seq<char>)
    ensures
        match reporter_index(rs, name) {
            Some(i) => 0 <= i < rs.len() && rs[i].name@ == name && forall|k: int| 0 <= k < i ==> rs[k].name@ != name,
            None => forall|k: int| 0 <= k < rs.len() ==> rs[k].name@ != name,
        },
    decreases rs.len(),
{
    if rs.len() > 0 {
        lemma_reporter_index(rs.drop_first(), name);
        if rs[0].name@ != name {
            assert forall|k: int| 0 < k < rs.len() implies rs[k] == rs.drop_first()[k - 1] by {}
        }
    }
}

proof fn lemma_matcher_index(ms: Seq<MatcherPlugin>, name: Seq<char>)
    ensures
        match matcher_index(ms, name) {
            Some(i) => 0 <= i < ms.len() && ms[i].name@ == name && forall|k: int| 0 <= k < i ==> ms[k].name@ != name,
            None => forall|k: int| 0 <= k < ms.len() ==> ms[k].name@ != name,
        },
    decreases ms.len(),
{
    if ms.len() > 0 {
        lemma_matcher_index(ms.drop_first(), name);
        if ms[0].name@ != name {
            assert forall|k: int| 0 < k < ms.len() implies ms[k] == ms.drop_first()[k - 1] by {}
        }
    }
}

proof fn lemma_reporter_index_at(rs: Seq<ReporterPlugin>, name: Seq<char>, i: int)
    requires
        0 <= i < rs.len(),
        rs[i].name@ == name,
        forall|k: int| 0 <= k < i ==> rs[k].name@ != name,
    ensures
        reporter_index(rs, name) == Some(i),
{
    lemma_reporter_index(rs, name);
    match reporter_index(rs, name) {
        Some(j) => {
            assert(!(j < i));
            assert(!(i < j));
        },
        None => {},
    }
}

proof fn lemma_matcher_index_at(ms: Seq<MatcherPlugin>, name: Seq<char>, i: int)
    requires
        0 <= i < ms.len(),
        ms[i].name@ == name,
        forall|k: int| 0 <= k < i ==> ms[k].name@ != name,
    ensures
        matcher_index(ms, name) == Some(i),
{
    lemma_matcher_index(ms, name);
    match matcher_index(ms, name) {
        Some(j) => {
            assert(!(j < i));
            assert(!(i < j));
        },
        None => {},
    }
}

/// The error for a plugin that is not registered.
pub open spec fn not_found_spec(name: Seq<char>) -> Seq<char> {
    "Plugin '"@ + name + "' not found"@
}

fn not_found(name: &str) -> (r: String)
    ensures
        r@ == not_found_spec(name@),
{
    let mut out: Vec<char> = Vec::new();
    push_str(&mut out, "Plugin '");
    push_str(&mut out, name);
    push_str(&mut out, "' not found");
    assert(out@ =~= not_found_spec(name@));
    string_from_chars(&out)
}

impl PluginRegistry {
    /// An empty registry.
    pub fn new() -> (r: Self)
        ensures
            r.reporters@.len() == 0,
            r.matchers@.len() == 0,
            r.plugins@.len() == 0,
    {
        PluginRegistry { reporters: Vec::new(), matchers: Vec::new(), plugins: Vec::new() }
    }

    /// Adds a reporter after the others.
    pub fn register_reporter(&mut self, reporter: ReporterPlugin)
        ensures
            final(self).reporters@ == old(self).reporters@.push(reporter),
            final(self).matchers@ == old(self).matchers@,
            final(self).plugins@ == old(self).plugins@,
    {
        self.reporters.push(reporter);
    }

    /// Adds a matcher plugin after the others.
    pub fn register_matcher(&mut self, matcher: MatcherPlugin)
        ensures
            final(self).matchers@ == old(self).matchers@.push(matcher),
            final(self).reporters@ == old(self).reporters@,
            final(self).plugins@ == old(self).plugins@,
    {
        self.matchers.push(matcher);
    }

    /// The reporters, in order.
    pub fn get_reporters(&self) -> (r: &[ReporterPlugin])
        ensures
            r@ == self.reporters@,
    {
        self.reporters.as_slice()
    }

    /// The matcher plugins, in order.
    pub fn get_matchers(&self) -> (r: &[MatcherPlugin])
        ensures
            r@ == self.matchers@,
    {
        self.matchers.as_slice()
    }

    fn find_reporter(&self, name: &str) -> (r: Option<usize>)
        ensures
            match r {
                Some(i) => reporter_index(self.reporters@, name@) == Some(i as int) && i < self.reporters@.len(),
                None => reporter_index(self.reporters@, name@).is_none(),
            },
    {
        let mut i: usize = 0;
        while i < self.reporters.len()
            invariant
                i <= self.reporters@.len(),
                forall|k: int| 0 <= k < i ==> self.reporters@[k].name@ != name@,
            decreases self.reporters.len() - i,
        {
            if str_eq(self.reporters[i].name.as_str(), name) {
                proof {
                    lemma_reporter_index_at(self.reporters@, name@, i as int);
                }
                return Some(i);
            }
            i = i + 1;
        }
        proof {
            lemma_reporter_index(self.reporters@, name@);
        }
        None
    }

    fn find_matcher(&self, name: &str) -> (r: Option<usize>)
        ensures
            match r {
                Some(i) => matcher_index(self.matchers@, name@) == Some(i as int) && i < self.matchers@.len(),
                None => matcher_index(self.matchers@, name@).is_none(),
            },
    {
        let mut i: usize = 0;
        while i < self.matchers.len()
            invariant
                i <= self.matchers@.len(),
                forall|k: int| 0 <= k < i ==> self.matchers@[k].name@ != name@,
            decreases self.matchers.len() - i,
        {
            if str_eq(self.matchers[i].name.as_str(), name) {
                proof {
                    lemma_matcher_index_at(self.matchers@, name@, i as int);
                }
                return Some(i);
            }
            i = i + 1;
        }
        proof {
            lemma_matcher_index(self.matchers@, name@);
        }
        None
    }

    /// Switches the plugin named `name` on or off: the first reporter of
    /// that name, else the first matcher plugin of that name; an error
    /// naming it when there is neither, the registry unchanged.
    pub fn enable_plugin(&mut self, name: &str, enabled: bool) -> (r: Result<(), String>)
        ensures
            final(self).plugins@ == old(self).plugins@,
            match reporter_index(old(self).reporters@, name@) {
                Some(i) => r is Ok && final(self).reporters@ == old(self).reporters@.update(
                    i,
                    ReporterPlugin { enabled, ..old(self).reporters@[i] },
                ) && final(self).matchers@ == old(self).matchers@,
                None => match matcher_index(old(self).matchers@, name@) {
                    Some(j) => r is Ok && final(self).matchers@ == old(self).matchers@.update(
                        j,
                        MatcherPlugin { enabled, ..old(self).matchers@[j] },
                    ) && final(self).reporters@ == old(self).reporters@,
                    None => r matches Err(e) && e@ == not_found_spec(name@) && final(self).reporters@
                        == old(self).reporters@ && final(self).matchers@ == old(self).matchers@,
                },
            },
    {
        proof {
            lemma_reporter_index(self.reporters@, name@);
            lemma_matcher_index(self.matchers@, name@);
        }
        let ghost rs = self.reporters@;
        let ghost ms = self.matchers@;
        match self.find_reporter(name) {
            Some(i) => {
                let old_r = self.reporters.remove(i);
                self.reporters.insert(i, ReporterPlugin { name: old_r.name, path: old_r.path, enabled });
                assert(reporter_index(rs, name@) == Some(i as int));
                assert(self.reporters@ =~= rs.update(i as int, ReporterPlugin { enabled, ..rs[i as int] }));
                return Ok(());
            },
            None => {},
        }
        match self.find_matcher(name) {
            Some(j) => {
                let old_m = self.matchers.remove(j);
                self.matchers.insert(
                    j,
                    MatcherPlugin { name: old_m.name, path: old_m.path, matcher_names: old_m.matcher_names, enabled },
                );
                assert(self.matchers@ =~= ms.update(j as int, MatcherPlugin { enabled, ..ms[j as int] }));
                return Ok(());
            },
            None => {},
        }
        Err(not_found(name))
    }

    /// Removes the plugin named `name`: the first reporter of that name,
    /// else the first matcher plugin of that name; an error naming it when
    /// there is neither, the registry unchanged.
    pub fn unregister_plugin(&mut self, name: &str) -> (r: Result<(), String>)
        ensures
            final(self).plugins@ == old(self).plugins@,
            match reporter_index(old(self).reporters@, name@) {
                Some(i) => r is Ok && final(self).reporters@ == old(self).reporters@.remove(i)
                    && final(self).matchers@ == old(self).matchers@,
                None => match matcher_index(old(self).matchers@, name@) {
                    Some(j) => r is Ok && final(self).matchers@ == old(self).matchers@.remove(j)
                        && final(self).reporters@ == old(self).reporters@,
                    None => r matches Err(e) && e@ == not_found_spec(name@) && final(self).reporters@
                        == old(self).reporters@ && final(self).matchers@ == old(self).matchers@,
                },
            },
    {
        proof {
            lemma_reporter_index(self.reporters@, name@);
            lemma_matcher_index(self.matchers@, name@);
        }
        let ghost rs = self.reporters@;
        let ghost ms = self.matchers@;
        match self.find_reporter(name) {
            Some(i) => {
                self.reporters.remove(i);
                assert(reporter_index(rs, name@) == Some(i as int));
                assert(self.reporters@ =~= rs.remove(i as int));
                return Ok(());
            },
            None => {},
        }
        match self.find_matcher(name) {
            Some(j) => {
                self.matchers.remove(j);
                assert(matcher_index(ms, name@) == Some(j as int));
                assert(self.matchers@ =~= ms.remove(j as int));
                return Ok(());
            },
            None => {},
        }
        Err(not_found(name))
    }
}

/// Registering a reporter under a name that no registered reporter has,
/// then unregistering that name, removes exactly the new reporter: the
/// reporters are those from before.
pub proof fn law_unregister_undoes_register(rs: Seq<ReporterPlugin>, r: ReporterPlugin)
    requires
        reporter_index(rs, r.name@).is_none(),
    ensures
        reporter_index(rs.push(r), r.name@) == Some(rs.len() as int),
        rs.push(r).remove(rs.len() as int) == rs,
{
    lemma_reporter_index(rs, r.name@);
    lemma_reporter_index_at(rs.push(r), r.name@, rs.len() as int);
    assert(rs.push(r).remove(rs.len() as int) =~= rs);
}

impl Default for PluginRegistry {
    fn default() -> (r: Self)
        ensures
            r.reporters@.len() == 0,
            r.matchers@.len() == 0,
            r.plugins@.len() == 0,
    {
        Self::new()
    }
}

} // verus!
