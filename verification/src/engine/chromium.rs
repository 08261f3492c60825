use vstd::prelude::*;
use crate::injection::stealth::{StealthConfig, process_script_spec, global_expr_spec};
use crate::json::{json_string, json_string_of};
use crate::text::{push_str, string_from_chars, chars_of, occurs_at, subrange_chars, trim_end_spec, trim_end_chars};

verus! {

/// The texts joined with `sep` between them.
pub open spec fn join_spec(parts: Seq<Seq<char>>, sep: Seq<char>) -> Seq<char>
    decreases parts.len(),
{
    if parts.len() == 0 {
        Seq::empty()
    } else if parts.len() == 1 {
        parts[0]
    } else {
        join_spec(parts.drop_last(), sep) + sep + parts.last()
    }
}

/// The texts of a list of strings.
pub open spec fn texts(v: Seq<String>) -> Seq<Seq<char>> {
    v.map_values(|s: String| s@)
}

/// The arguments of an action call, already written as JavaScript, joined
/// with `, `.
pub fn join_args(args: &Vec<String>) -> (r: String)
    ensures
        r@ == join_spec(texts(args@), ", "@),
{
    let mut out: Vec<char> = Vec::new();
    let mut i: usize = 0;
    while i < args.len()
        invariant
            i <= args@.len(),
            out@ == join_spec(texts(args@.take(i as int)), ", "@),
        decreases args.len() - i,
    {
        if i > 0 {
            push_str(&mut out, ", ");
        }
        push_str(&mut out, args[i].as_str());
        proof {
            let t = texts(args@.take(i + 1));
            assert(t.drop_last() =~= texts(args@.take(i as int)));
            if i == 0 {
                assert(t.len() == 1);
            }
        }
        i = i + 1;
    }
    assert(args@.take(args@.len() as int) =~= args@);
    string_from_chars(&out)
}

/// The position of the last occurrence of `p` in `s`, if any
/// (`str::rfind`).
pub open spec fn rfind_sub_spec(s: Seq<char>, p: Seq<char>) -> Option<int>
    decreases s.len(),
{
    if s.len() < p.len() {
        None
    } else if s.skip(s.len() - p.len()) == p {
        Some(s.len() - p.len())
    } else if s.len() == 0 {
        None
    } else {
        rfind_sub_spec(s.drop_last(), p)
    }
}

/// The actions script without its source-map comment: cut before the last
/// `//# sourceMappingURL=` when there is one, trailing whitespace removed.
pub open spec fn strip_source_map_spec(script: Seq<char>) -> Seq<char> {
    match rfind_sub_spec(script, "//# sourceMappingURL="@) {
        Some(pos) => trim_end_spec(script.take(pos)),
        None => trim_end_spec(script),
    }
}

proof fn lemma_rfind_bounds(s: Seq<char>, p: Seq<char>)
    ensures
        match rfind_sub_spec(s, p) {
            Some(i) => 0 <= i && i + p.len() <= s.len(),
            None => true,
        },
    decreases s.len(),
{
    if s.len() >= p.len() && s.skip(s.len() - p.len()) != p && s.len() > 0 {
        lemma_rfind_bounds(s.drop_last(), p);
    }
}

/// Strips the source-map comment (see `strip_source_map_spec`).
pub fn strip_source_map(script: &str) -> (r: String)
    ensures
        r@ == strip_source_map_spec(script@),
{
    let v = chars_of(script);
    let m = chars_of("//# sourceMappingURL=");
    proof {
        reveal_strlit("//# sourceMappingURL=");
    }
    let ghost mv = m@;
    if m.len() > v.len() {
        let t = trim_end_chars(&v);
        return string_from_chars(&t);
    }
    let mut n: usize = v.len();
    let mut found: Option<usize> = None;
    assert(v@.take(v.len() as int) =~= v@);
    while found.is_none() && n >= m.len()
        invariant
            n <= v.len(),
            m@ == mv,
            mv.len() > 0,
            found.is_none() ==> rfind_sub_spec(v@, mv) == rfind_sub_spec(v@.take(n as int), mv),
            found matches Some(pos) ==> rfind_sub_spec(v@, mv) == Some(pos as int) && pos + mv.len() <= v.len(),
        decreases n + (if found.is_none() { 1int } else { 0int }),
    {
        let i = n - m.len();
        let ghost t = v@.take(n as int);
        assert(t.skip(t.len() - mv.len()) =~= v@.skip(i as int).take(m.len() as int));
        if occurs_at(&v, i, &m) {
            found = Some(i);
        } else {
            assert(t.drop_last() =~= v@.take(n - 1));
            n = n - 1;
        }
    }
    proof {
        lemma_rfind_bounds(v@, mv);
    }
    match found {
        Some(pos) => {
            let head = subrange_chars(&v, 0, pos);
            assert(head@ =~= v@.take(pos as int));
            let t = trim_end_chars(&head);
            string_from_chars(&t)
        },
        None => {
            assert(rfind_sub_spec(v@.take(n as int), mv).is_none());
            let t = trim_end_chars(&v);
            string_from_chars(&t)
        },
    }
}

/// The script that runs the actions script (its names filled in, its
/// source-map comment stripped) and calls `action` with the arguments on
/// the internal object, answering `{ok:true,data:...}` as JSON.
pub open spec fn action_script_spec(
    cfg: StealthConfig,
    actions_script: Seq<char>,
    global_name: Seq<char>,
    binding_name: Seq<char>,
    action: Seq<char>,
    js_args: Seq<char>,
) -> Seq<char> {
    "(async function(){"@ + strip_source_map_spec(process_script_spec(actions_script, global_name, binding_name))
        + "var p="@ + global_expr_spec(cfg, global_name)
        + ";var k=p&&p.__tsSym;var ts=window[k||'__ts_internal'];if(!ts['"@ + action + "'])throw Error('Action "@
        + action + " not found');var r=await ts['"@ + action + "']("@ + js_args
        + ");return JSON.stringify({ok:true,data:r});})()"@
}

/// The script that performs `action` with the given arguments (each
/// already written as JavaScript) in the page (see `action_script_spec`).
pub fn action_script(
    cfg: &StealthConfig,
    actions_script: &str,
    global_name: &str,
    binding_name: &str,
    action: &str,
    args: &Vec<String>,
) -> (r: String)
    ensures
        r@ == action_script_spec(*cfg, actions_script@, global_name@, binding_name@, action@, join_spec(texts(args@), ", "@)),
{
    let js_args = join_args(args);
    let script = cfg.process_script(actions_script, global_name, binding_name);
    let clean = strip_source_map(script.as_str());
    let access = cfg.global_expr(global_name);
    let mut out: Vec<char> = Vec::new();
    push_str(&mut out, "(async function(){");
    push_str(&mut out, clean.as_str());
    push_str(&mut out, "var p=");
    push_str(&mut out, access.as_str());
    push_str(&mut out, ";var k=p&&p.__tsSym;var ts=window[k||'__ts_internal'];if(!ts['");
    push_str(&mut out, action);
    push_str(&mut out, "'])throw Error('Action ");
    push_str(&mut out, action);
    push_str(&mut out, " not found');var r=await ts['");
    push_str(&mut out, action);
    push_str(&mut out, "'](");
    push_str(&mut out, js_args.as_str());
    push_str(&mut out, ");return JSON.stringify({ok:true,data:r});})()");
    string_from_chars(&out)
}

/// The script that focuses the element `selector_json` selects, if any.
pub open spec fn focus_script_spec(selector_json: Seq<char>) -> Seq<char> {
    "(function() { var el = document.querySelector("@ + selector_json + "); if (el) el.focus(); })()"@
}

/// See `focus_script_spec`; the selector is written as a JSON string.
pub fn focus_script(selector: &str) -> (r: String)
    ensures
        r@ == focus_script_spec(json_string_of(selector@)),
{
    let sel = json_string(selector);
    let mut out: Vec<char> = Vec::new();
    push_str(&mut out, "(function() { var el = document.querySelector(");
    push_str(&mut out, sel.as_str());
    push_str(&mut out, "); if (el) el.focus(); })()");
    string_from_chars(&out)
}

} // verus!
