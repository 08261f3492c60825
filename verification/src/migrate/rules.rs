use vstd::prelude::*;
use crate::text::{replace_spec, replace_str, contains_spec};

verus! {

/// The text after each `(pattern, replacement)` rule has been applied in
/// turn, every occurrence of the pattern replaced (`str::replace`).
pub open spec fn apply_rules(s: Seq<char>, rules: Seq<(Seq<char>, Seq<char>)>) -> Seq<char>
    decreases rules.len(),
{
    if rules.len() == 0 {
        s
    } else {
        replace_spec(apply_rules(s, rules.drop_last()), rules.last().0, rules.last().1)
    }
}

/// The texts of a table of rules.
pub open spec fn rules_view(v: Seq<(&str, &str)>) -> Seq<(Seq<char>, Seq<char>)> {
    v.map_values(|p: (&str, &str)| (p.0@, p.1@))
}

/// Applies the rules of `table` to `content` in order (see `apply_rules`).
pub fn apply_rule_table(content: &str, table: &Vec<(&str, &str)>) -> (r: String)
    ensures
        r@ == apply_rules(content@, rules_view(table@)),
{
    let mut out: String = content.to_owned();
    let ghost rs = rules_view(table@);
    let mut i: usize = 0;
    while i < table.len()
        invariant
            i <= table@.len(),
            rs == rules_view(table@),
            out@ == apply_rules(content@, rs.take(i as int)),
        decreases table.len() - i,
    {
        let (pat, rep) = table[i];
        out = replace_str(out.as_str(), pat, rep);
        assert(rs.take(i + 1).drop_last() =~= rs.take(i as int));
        i = i + 1;
    }
    assert(rs.take(rs.len() as int) =~= rs);
    out
}

/// Replacing a pattern that does not occur changes nothing.
pub proof fn lemma_replace_no_match(s: Seq<char>, p: Seq<char>, r: Seq<char>)
    requires
        p.len() > 0,
        !contains_spec(s, p),
    ensures
        replace_spec(s, p, r) == s,
    decreases s.len(),
{
    if s.len() >= p.len() {
        assert(s.subrange(0, 0 + p.len() as int) =~= s.take(p.len() as int));
        let t = s.drop_first();
        assert(!contains_spec(t, p)) by {
            if contains_spec(t, p) {
                let i = choose|i: int| 0 <= i && i + p.len() <= t.len() && #[trigger] t.subrange(i, i + p.len()) == p;
                assert(s.subrange(i + 1, i + 1 + p.len()) =~= t.subrange(i, i + p.len()));
            }
        }
        lemma_replace_no_match(t, p, r);
        assert(seq![s[0]] + t =~= s);
    }
}

/// Replacing a pattern in the pattern itself gives the replacement.
pub proof fn lemma_replace_whole(p: Seq<char>, r: Seq<char>)
    requires
        p.len() > 0,
    ensures
        replace_spec(p, p, r) == r,
{
    let e = Seq::<char>::empty();
    assert(p.take(p.len() as int) =~= p);
    assert(p.skip(p.len() as int) =~= e);
    assert(replace_spec(e, p, r) == e);
    assert(replace_spec(p, p, r) == r + replace_spec(p.skip(p.len() as int), p, r));
    assert(r + e =~= r);
}

/// A pattern longer than the text does not occur in it.
pub proof fn lemma_absent_by_length(t: Seq<char>, p: Seq<char>)
    requires
        p.len() > t.len(),
    ensures
        !contains_spec(t, p),
{
}

/// A pattern whose first character the text lacks does not occur in it.
pub proof fn lemma_absent_by_first_char(t: Seq<char>, p: Seq<char>)
    requires
        p.len() > 0,
        forall|i: int| 0 <= i < t.len() ==> t[i] != p[0],
    ensures
        !contains_spec(t, p),
{
    if contains_spec(t, p) {
        let i = choose|i: int| 0 <= i && i + p.len() <= t.len() && #[trigger] t.subrange(i, i + p.len()) == p;
        assert(t.subrange(i, i + p.len())[0] == t[i]);
    }
}

/// One more rule applied: if the text so far is `t` and the rule turns it
/// into `u`, the text after it is `u`.
pub proof fn lemma_rule_step(s: Seq<char>, rules: Seq<(Seq<char>, Seq<char>)>, k: int, t: Seq<char>, u: Seq<char>)
    requires
        0 <= k < rules.len(),
        apply_rules(s, rules.take(k)) == t,
        replace_spec(t, rules[k].0, rules[k].1) == u,
    ensures
        apply_rules(s, rules.take(k + 1)) == u,
{
    assert(rules.take(k + 1).drop_last() =~= rules.take(k));
    assert(rules.take(k + 1).last() == rules[k]);
}

} // verus!
