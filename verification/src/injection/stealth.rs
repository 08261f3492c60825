use vstd::prelude::*;
use crate::text::{push_str, replace_spec, replace_str, string_from_chars, is_lower_hex, contains_spec};

verus! {

/// How injected-global names look on `window`.
#[derive(PartialEq, Eq, Structural, Clone, Copy, Debug)]
pub enum StealthNameStyle {
    /// `__ts_g_{uuid}` / `__ts_b_{uuid}`: obvious, for debugging.
    Explicit,
    /// `_a{short}` / `_b{short}`.
    Simple,
    /// A name from a pool of common page globals, then a short suffix.
    Realistic,
}

/// Controls how visible the injected script's names are. Enabled, with
/// simple names, by default.
#[derive(Clone, Copy, Debug)]
pub struct StealthConfig {
    pub enabled: bool,
    pub name_style: StealthNameStyle,
}

impl Default for StealthConfig {
    fn default() -> (r: Self)
        ensures
            r.enabled,
            r.name_style == StealthNameStyle::Simple,
    {
        StealthConfig { enabled: true, name_style: StealthNameStyle::Simple }
    }
}

/// A random identifier in the `simple` form of `uuid::Uuid::new_v4`:
/// 32 lowercase hexadecimal digits. Nothing more is stated: it is random.
#[verifier::external_body]
fn new_uuid_simple() -> (s: String)
    ensures
        s@.len() == 32,
        forall|i: int| 0 <= i < 32 ==> is_lower_hex(#[trigger] s@[i]),
{
    uuid::Uuid::new_v4().simple().to_string()
}

/// The names that `Realistic` style picks from.
pub open spec fn realistic_pool(i: int) -> Seq<char> {
    if i == 0 { "_n"@ } else if i == 1 { "_t"@ } else if i == 2 { "jQuery"@ }
    else if i == 3 { "_react"@ } else if i == 4 { "vue"@ } else if i == 5 { "_s"@ }
    else if i == 6 { "_l"@ } else if i == 7 { "_w"@ } else if i == 8 { "_h"@ }
    else if i == 9 { "_d"@ } else if i == 10 { "_r"@ } else if i == 11 { "__WEBPACK__"@ }
    else if i == 12 { "__NEXT_DATA__"@ } else if i == 13 { "_paq"@ } else if i == 14 { "_ga"@ }
    else if i == 15 { "ga"@ } else if i == 16 { "Stripe"@ } else { "paypal"@ }
}

fn realistic_name(i: usize) -> (s: &'static str)
    requires
        i < 18,
    ensures
        s@ == realistic_pool(i as int),
{
    if i == 0 { "_n" } else if i == 1 { "_t" } else if i == 2 { "jQuery" }
    else if i == 3 { "_react" } else if i == 4 { "vue" } else if i == 5 { "_s" }
    else if i == 6 { "_l" } else if i == 7 { "_w" } else if i == 8 { "_h" }
    else if i == 9 { "_d" } else if i == 10 { "_r" } else if i == 11 { "__WEBPACK__" }
    else if i == 12 { "__NEXT_DATA__" } else if i == 13 { "_paq" } else if i == 14 { "_ga" }
    else if i == 15 { "ga" } else if i == 16 { "Stripe" } else { "paypal" }
}

/// The (global, binding) names that a configuration makes from two random
/// identifiers `u1` and `u2`.
pub open spec fn names_spec(cfg: StealthConfig, u1: Seq<char>, u2: Seq<char>) -> (Seq<char>, Seq<char>) {
    if !cfg.enabled || cfg.name_style == StealthNameStyle::Explicit {
        ("__ts_g_"@ + u1, "__ts_b_"@ + u2)
    } else if cfg.name_style == StealthNameStyle::Simple {
        ("_a"@ + u1.take(8), "_b"@ + u1.take(8))
    } else {
        (realistic_pool(((u1[0] as u8) as int) % 18) + u1.take(6), "_"@ + u1.take(6))
    }
}

/// The JS expression for the public proxy: `window.<name>` when stealth is
/// off or names are explicit, else `window['<name>']`.
pub open spec fn global_expr_spec(cfg: StealthConfig, global_name: Seq<char>) -> Seq<char> {
    if !cfg.enabled || cfg.name_style == StealthNameStyle::Explicit {
        "window."@ + global_name
    } else {
        "window['"@ + global_name + "']"@
    }
}

/// The placeholders of the injected scripts replaced by the page's names.
pub open spec fn process_script_spec(script: Seq<char>, global_name: Seq<char>, binding_name: Seq<char>) -> Seq<char> {
    replace_spec(replace_spec(script, "__TS_GLOBAL__"@, global_name), "__TS_BINDING__"@, binding_name)
}

impl StealthConfig {
    /// Stealth off, explicit names (for debugging).
    pub fn disabled() -> (r: Self)
        ensures
            !r.enabled,
            r.name_style == StealthNameStyle::Explicit,
    {
        StealthConfig { enabled: false, name_style: StealthNameStyle::Explicit }
    }

    /// The names this configuration makes from the identifiers `u1` and
    /// `u2` (each 32 lowercase hexadecimal digits).
    pub fn names_from(&self, u1: &str, u2: &str) -> (r: (String, String))
        requires
            u1@.len() == 32,
            u2@.len() == 32,
            forall|i: int| 0 <= i < 32 ==> is_lower_hex(#[trigger] u1@[i]),
        ensures
            (r.0@, r.1@) == names_spec(*self, u1@, u2@),
    {
        let mut g: Vec<char> = Vec::new();
        let mut b: Vec<char> = Vec::new();
        if !self.enabled || self.name_style == StealthNameStyle::Explicit {
            push_str(&mut g, "__ts_g_");
            push_str(&mut g, u1);
            push_str(&mut b, "__ts_b_");
            push_str(&mut b, u2);
        } else if self.name_style == StealthNameStyle::Simple {
            let short = u1.substring_char(0, 8);
            push_str(&mut g, "_a");
            push_str(&mut g, short);
            push_str(&mut b, "_b");
            push_str(&mut b, short);
        } else {
            let short = u1.substring_char(0, 6);
            let first = u1.get_char(0);
            assert(is_lower_hex(u1@[0]));
            let idx = (first as u8 as usize) % 18;
            push_str(&mut g, realistic_name(idx));
            push_str(&mut g, short);
            push_str(&mut b, "_");
            push_str(&mut b, short);
        }
        (string_from_chars(&g), string_from_chars(&b))
    }

    /// A fresh (global, binding) name pair, from random identifiers.
    pub fn generate_names(&self) -> (r: (String, String))
        ensures
            exists|u1: Seq<char>, u2: Seq<char>| u1.len() == 32 && u2.len() == 32
                && (forall|i: int| 0 <= i < 32 ==> is_lower_hex(#[trigger] u1[i]))
                && (r.0@, r.1@) == #[trigger] names_spec(*self, u1, u2),
    {
        let u1 = new_uuid_simple();
        let u2 = new_uuid_simple();
        self.names_from(u1.as_str(), u2.as_str())
    }

    /// The script with `__TS_GLOBAL__` replaced by `global_name`, then
    /// `__TS_BINDING__` by `binding_name`.
    pub fn process_script(&self, script: &str, global_name: &str, binding_name: &str) -> (r: String)
        ensures
            r@ == process_script_spec(script@, global_name@, binding_name@),
    {
        let s1 = replace_str(script, "__TS_GLOBAL__", global_name);
        replace_str(s1.as_str(), "__TS_BINDING__", binding_name)
    }

    /// A JS expression for the public proxy: `window.<name>` when stealth is
    /// off or names are explicit, else `window['<name>']`.
    pub fn global_expr(&self, global_name: &str) -> (r: String)
        ensures
            r@ == global_expr_spec(*self, global_name@),
    {
        let mut out: Vec<char> = Vec::new();
        if !self.enabled || self.name_style == StealthNameStyle::Explicit {
            push_str(&mut out, "window.");
            push_str(&mut out, global_name);
        } else {
            push_str(&mut out, "window['");
            push_str(&mut out, global_name);
            push_str(&mut out, "']");
        }
        string_from_chars(&out)
    }
}

/// A character that can stand in a placeholder: `_` or an ASCII capital.
pub open spec fn placeholder_char(c: char) -> bool {
    c == '_' || ('A' <= c && c <= 'Z')
}

/// `pat` is made of placeholder characters only.
pub open spec fn placeholder_like(pat: Seq<char>) -> bool {
    pat.len() > 0 && forall|k: int| 0 <= k < pat.len() ==> placeholder_char(#[trigger] pat[k])
}

/// Where `x` meets `y`, one side shows a character that no placeholder
/// holds (or one side is empty).
pub open spec fn clean_junction(x: Seq<char>, y: Seq<char>) -> bool {
    x.len() == 0 || y.len() == 0 || !placeholder_char(x.last()) || !placeholder_char(y[0])
}

/// Replacing `pat` in `x + w` leaves `x` alone when `x` holds no `pat` and
/// no occurrence can start in `x` and run on into `w`.
proof fn lemma_replace_skips_clean_prefix(x: Seq<char>, w: Seq<char>, pat: Seq<char>, rep: Seq<char>)
    requires
        placeholder_like(pat),
        !contains_spec(x, pat),
        clean_junction(x, w),
    ensures
        replace_spec(x + w, pat, rep) == x + replace_spec(w, pat, rep),
    decreases x.len(),
{
    let s = x + w;
    let p = pat.len() as int;
    if x.len() == 0 {
        assert(s =~= w);
        assert(x + replace_spec(w, pat, rep) =~= replace_spec(w, pat, rep));
    } else if s.len() < p {
        assert(replace_spec(w, pat, rep) == w);
        assert(replace_spec(s, pat, rep) == s);
    } else {
        if s.take(p) == pat {
            if p <= x.len() {
                assert(x.subrange(0, 0 + p) =~= s.take(p));
                assert(contains_spec(x, pat));
            } else if !placeholder_char(x.last()) {
                assert(s.take(p)[x.len() - 1] == x.last());
                assert(placeholder_char(pat[x.len() - 1]));
            } else {
                assert(w.len() > 0);
                assert(s.take(p)[x.len() as int] == w[0]);
                assert(placeholder_char(pat[x.len() as int]));
            }
        }
        let xt = x.drop_first();
        assert(!contains_spec(xt, pat)) by {
            if contains_spec(xt, pat) {
                let i = choose|i: int| 0 <= i && i + p <= xt.len() && #[trigger] xt.subrange(i, i + p) == pat;
                assert(x.subrange(i + 1, i + 1 + p) =~= xt.subrange(i, i + p));
            }
        }
        if xt.len() > 0 {
            assert(xt.last() == x.last());
        }
        lemma_replace_skips_clean_prefix(xt, w, pat, rep);
        assert(s.drop_first() =~= xt + w);
        assert(s.take(p) != pat);
        assert(replace_spec(s, pat, rep) == seq![s[0]] + replace_spec(s.drop_first(), pat, rep));
        assert(seq![s[0]] + (xt + replace_spec(w, pat, rep)) =~= x + replace_spec(w, pat, rep));
    }
}

/// Two texts without `pat` that meet cleanly make a text without `pat`.
proof fn lemma_clean_concat_has_none(x: Seq<char>, y: Seq<char>, pat: Seq<char>)
    requires
        placeholder_like(pat),
        !contains_spec(x, pat),
        !contains_spec(y, pat),
        clean_junction(x, y),
    ensures
        !contains_spec(x + y, pat),
{
    let s = x + y;
    let p = pat.len() as int;
    if contains_spec(s, pat) {
        let i = choose|i: int| 0 <= i && i + p <= s.len() && #[trigger] s.subrange(i, i + p) == pat;
        if i + p <= x.len() {
            assert(x.subrange(i, i + p) =~= s.subrange(i, i + p));
        } else if i >= x.len() {
            assert(y.subrange(i - x.len(), i - x.len() + p) =~= s.subrange(i, i + p));
        } else if !placeholder_char(x.last()) {
            assert(s.subrange(i, i + p)[x.len() - 1 - i] == x.last());
            assert(placeholder_char(pat[x.len() - 1 - i]));
        } else {
            assert(s.subrange(i, i + p)[x.len() - i] == y[0]);
            assert(placeholder_char(pat[x.len() - i]));
        }
    }
}

/// Replacing `pat` in a text without it changes nothing.
proof fn lemma_replace_absent(x: Seq<char>, pat: Seq<char>, rep: Seq<char>)
    requires
        placeholder_like(pat),
        !contains_spec(x, pat),
    ensures
        replace_spec(x, pat, rep) == x,
{
    let e = Seq::<char>::empty();
    lemma_replace_skips_clean_prefix(x, e, pat, rep);
    assert(x + e =~= x);
    assert(x + replace_spec(e, pat, rep) =~= x);
}

/// Replacing `pat` in a text that begins with it puts `rep` first.
proof fn lemma_replace_front(w: Seq<char>, pat: Seq<char>, rep: Seq<char>)
    requires
        pat.len() > 0,
    ensures
        replace_spec(pat + w, pat, rep) == rep + replace_spec(w, pat, rep),
{
    let s = pat + w;
    assert(s.take(pat.len() as int) =~= pat);
    assert(s.skip(pat.len() as int) =~= w);
}

/// The two placeholders are made of placeholder characters, and the
/// binding placeholder does not hold the global one.
proof fn lemma_placeholders()
    ensures
        placeholder_like("__TS_GLOBAL__"@),
        placeholder_like("__TS_BINDING__"@),
        !contains_spec("__TS_BINDING__"@, "__TS_GLOBAL__"@),
{
    reveal_strlit("__TS_GLOBAL__");
    reveal_strlit("__TS_BINDING__");
    let g = "__TS_GLOBAL__"@;
    let b = "__TS_BINDING__"@;
    assert(g.len() == 13);
    assert(b.len() == 14);
    assert forall|i: int| 0 <= i && i + 13 <= 14 implies #[trigger] b.subrange(i, i + 13) != g by {
        if i == 0 {
            assert(b.subrange(i, i + 13)[5] != g[5]);
        } else {
            assert(b.subrange(i, i + 13)[1] != g[1]);
        }
    }
}

/// A script without placeholders comes back unchanged, whatever the names.
pub proof fn law_script_without_placeholders_unchanged(script: Seq<char>, global_name: Seq<char>, binding_name: Seq<char>)
    requires
        !contains_spec(script, "__TS_GLOBAL__"@),
        !contains_spec(script, "__TS_BINDING__"@),
    ensures
        process_script_spec(script, global_name, binding_name) == script,
{
    lemma_placeholders();
    lemma_replace_absent(script, "__TS_GLOBAL__"@, global_name);
    lemma_replace_absent(script, "__TS_BINDING__"@, binding_name);
}

/// A script with the global placeholder, then the binding placeholder, in
/// text that holds neither and meets them cleanly (see `clean_junction`),
/// gets the page's names in their places; and where the names hold no
/// placeholder, none is left.
pub proof fn law_script_placeholders_filled(
    pre: Seq<char>,
    mid: Seq<char>,
    post: Seq<char>,
    global_name: Seq<char>,
    binding_name: Seq<char>,
)
    requires
        !contains_spec(pre, "__TS_GLOBAL__"@) && !contains_spec(pre, "__TS_BINDING__"@),
        !contains_spec(mid, "__TS_GLOBAL__"@) && !contains_spec(mid, "__TS_BINDING__"@),
        !contains_spec(post, "__TS_GLOBAL__"@) && !contains_spec(post, "__TS_BINDING__"@),
        pre.len() > 0 ==> !placeholder_char(pre.last()),
        mid.len() > 0 && !placeholder_char(mid[0]) && !placeholder_char(mid.last()),
        post.len() > 0 ==> !placeholder_char(post[0]),
        !contains_spec(global_name, "__TS_BINDING__"@),
    ensures
        process_script_spec(pre + "__TS_GLOBAL__"@ + mid + "__TS_BINDING__"@ + post, global_name, binding_name)
            == pre + global_name + mid + binding_name + post,
        !contains_spec(global_name, "__TS_GLOBAL__"@) && !contains_spec(binding_name, "__TS_GLOBAL__"@)
            ==> !contains_spec(pre + global_name + mid + binding_name + post, "__TS_GLOBAL__"@),
        !contains_spec(binding_name, "__TS_BINDING__"@)
            ==> !contains_spec(pre + global_name + mid + binding_name + post, "__TS_BINDING__"@),
{
    let pg = "__TS_GLOBAL__"@;
    let pb = "__TS_BINDING__"@;
    let g = global_name;
    let b = binding_name;
    lemma_placeholders();
    // The global placeholder.
    lemma_replace_absent(post, pg, g);
    lemma_replace_skips_clean_prefix(pb, post, pg, g);
    lemma_replace_skips_clean_prefix(mid, pb + post, pg, g);
    lemma_replace_front(mid + (pb + post), pg, g);
    lemma_replace_skips_clean_prefix(pre, pg + (mid + (pb + post)), pg, g);
    let s = pre + pg + mid + pb + post;
    assert(s =~= pre + (pg + (mid + (pb + post))));
    let s1 = pre + g + mid + pb + post;
    assert(replace_spec(s, pg, g) =~= s1);
    // The binding placeholder.
    lemma_replace_absent(post, pb, b);
    lemma_replace_front(post, pb, b);
    lemma_replace_skips_clean_prefix(mid, pb + post, pb, b);
    lemma_replace_skips_clean_prefix(g, mid + (pb + post), pb, b);
    lemma_replace_skips_clean_prefix(pre, g + (mid + (pb + post)), pb, b);
    assert(s1 =~= pre + (g + (mid + (pb + post))));
    let r = pre + g + mid + b + post;
    assert(replace_spec(s1, pb, b) =~= r);
    // Nothing left.
    assert(r =~= pre + (g + (mid + (b + post))));
    if !contains_spec(g, pg) && !contains_spec(b, pg) {
        lemma_clean_concat_has_none(b, post, pg);
        lemma_clean_concat_has_none(mid, b + post, pg);
        lemma_clean_concat_has_none(g, mid + (b + post), pg);
        lemma_clean_concat_has_none(pre, g + (mid + (b + post)), pg);
    }
    if !contains_spec(b, pb) {
        lemma_clean_concat_has_none(b, post, pb);
        lemma_clean_concat_has_none(mid, b + post, pb);
        lemma_clean_concat_has_none(g, mid + (b + post), pb);
        lemma_clean_concat_has_none(pre, g + (mid + (b + post)), pb);
    }
}

} // verus!
