use vstd::prelude::*;
use crate::json::{json_string, json_string_of};
use crate::text::{chars_of, push_str, push_decimal, string_from_chars, decimal_spec};

verus! {

/// A header: its name and value.
pub type Header = (String, String);

/// The text of the headers.
pub open spec fn headers_view(h: Seq<Header>) -> Seq<(Seq<char>, Seq<char>)> {
    h.map_values(|p: Header| (p.0@, p.1@))
}

/// Whether no two headers have the same name.
pub open spec fn distinct_names(h: Seq<(Seq<char>, Seq<char>)>) -> bool {
    forall|i: int, j: int| 0 <= i < j < h.len() ==> #[trigger] h[i].0 != #[trigger] h[j].0
}

/// Whether `a` comes before `b` in the order of their characters' code
/// points, a proper prefix first (the order of `String`).
pub open spec fn text_less(a: Seq<char>, b: Seq<char>) -> bool
    decreases a.len(),
{
    if a.len() == 0 {
        b.len() > 0
    } else if b.len() == 0 {
        false
    } else if a[0] != b[0] {
        (a[0] as u32) < (b[0] as u32)
    } else {
        text_less(a.drop_first(), b.drop_first())
    }
}

/// `h` with `x` put before its first header whose name comes after `x`'s.
pub open spec fn insert_by_name(x: (Seq<char>, Seq<char>), h: Seq<(Seq<char>, Seq<char>)>) -> Seq<(Seq<char>, Seq<char>)>
    decreases h.len(),
{
    if h.len() == 0 {
        seq![x]
    } else if text_less(x.0, h[0].0) {
        seq![x] + h
    } else {
        seq![h[0]] + insert_by_name(x, h.drop_first())
    }
}

/// The headers ordered by name (stable for equal names).
pub open spec fn sort_by_name(h: Seq<(Seq<char>, Seq<char>)>) -> Seq<(Seq<char>, Seq<char>)>
    decreases h.len(),
{
    if h.len() == 0 {
        Seq::empty()
    } else {
        insert_by_name(h.last(), sort_by_name(h.drop_last()))
    }
}

proof fn lemma_text_less_irreflexive(a: Seq<char>)
    ensures
        !text_less(a, a),
    decreases a.len(),
{
    if a.len() > 0 {
        lemma_text_less_irreflexive(a.drop_first());
    }
}

proof fn lemma_text_less_transitive(a: Seq<char>, b: Seq<char>, c: Seq<char>)
    requires
        text_less(a, b),
        text_less(b, c),
    ensures
        text_less(a, c),
    decreases a.len(),
{
    if a.len() > 0 && b.len() > 0 && c.len() > 0 {
        if a[0] == b[0] && b[0] == c[0] {
            lemma_text_less_transitive(a.drop_first(), b.drop_first(), c.drop_first());
        }
    }
}

/// Whether the headers are in name order.
pub open spec fn in_name_order(h: Seq<(Seq<char>, Seq<char>)>) -> bool {
    forall|i: int, j: int| 0 <= i < j < h.len() ==> !text_less(#[trigger] h[j].0, #[trigger] h[i].0)
}

proof fn lemma_insert_keeps_order(x: (Seq<char>, Seq<char>), h: Seq<(Seq<char>, Seq<char>)>)
    requires
        in_name_order(h),
    ensures
        in_name_order(insert_by_name(x, h)),
        insert_by_name(x, h).to_multiset() =~= h.to_multiset().insert(x),
    decreases h.len(),
{
    broadcast use vstd::seq_lib::group_to_multiset_ensures;
    broadcast use vstd::multiset::group_multiset_axioms;
    let r = insert_by_name(x, h);
    if h.len() == 0 {
        assert(r =~= seq![x]);
        assert(seq![x] =~= Seq::<(Seq<char>, Seq<char>)>::empty().push(x));
    } else if text_less(x.0, h[0].0) {
        assert(r == seq![x] + h);
        assert forall|i: int, j: int| 0 <= i < j < r.len() implies !text_less(#[trigger] r[j].0, #[trigger] r[i].0) by {
            if i == 0 {
                assert(r[j] == h[j - 1]);
                if text_less(h[j - 1].0, x.0) {
                    lemma_text_less_transitive(h[j - 1].0, x.0, h[0].0);
                    if j - 1 == 0 {
                        lemma_text_less_irreflexive(h[0].0);
                    }
                }
            } else {
                assert(r[i] == h[i - 1] && r[j] == h[j - 1]);
            }
        }
        vstd::seq_lib::lemma_multiset_commutative(seq![x], h);
        assert(seq![x] =~= Seq::<(Seq<char>, Seq<char>)>::empty().push(x));
    } else {
        let t = h.drop_first();
        assert(in_name_order(t)) by {
            assert forall|i: int, j: int| 0 <= i < j < t.len() implies !text_less(#[trigger] t[j].0, #[trigger] t[i].0) by {
                assert(t[i] == h[i + 1] && t[j] == h[j + 1]);
            }
        }
        lemma_insert_keeps_order(x, t);
        let rt = insert_by_name(x, t);
        assert(r == seq![h[0]] + rt);
        assert forall|i: int, j: int| 0 <= i < j < r.len() implies !text_less(#[trigger] r[j].0, #[trigger] r[i].0) by {
            if i == 0 {
                let y = rt[j - 1];
                assert(r[j] == y);
                assert(rt.to_multiset().count(y) > 0);
                assert(h.to_multiset() =~= (seq![h[0]] + t).to_multiset()) by {
                    assert(h =~= seq![h[0]] + t);
                }
                if y != x {
                    assert(t.to_multiset().count(y) > 0);
                    assert(t.contains(y));
                    let k = choose|k: int| 0 <= k < t.len() && t[k] == y;
                    assert(h[k + 1] == y);
                }
            } else {
                assert(r[i] == rt[i - 1] && r[j] == rt[j - 1]);
            }
        }
        vstd::seq_lib::lemma_multiset_commutative(seq![h[0]], rt);
        vstd::seq_lib::lemma_multiset_commutative(seq![h[0]], t);
        assert(h =~= seq![h[0]] + t);
    }
}

/// Ordering headers by name puts them in name order and keeps every
/// header, as many times as it was given.
pub proof fn law_sorted_headers_in_order(h: Seq<(Seq<char>, Seq<char>)>)
    ensures
        in_name_order(sort_by_name(h)),
        sort_by_name(h).to_multiset() =~= h.to_multiset(),
    decreases h.len(),
{
    broadcast use vstd::seq_lib::group_to_multiset_ensures;
    if h.len() > 0 {
        law_sorted_headers_in_order(h.drop_last());
        lemma_insert_keeps_order(h.last(), sort_by_name(h.drop_last()));
        assert(h =~= h.drop_last().push(h.last()));
    }
}

/// The members `"name":"value"` of the headers, comma-separated.
pub open spec fn members_json(h: Seq<(Seq<char>, Seq<char>)>) -> Seq<char>
    decreases h.len(),
{
    if h.len() == 0 {
        Seq::empty()
    } else if h.len() == 1 {
        json_string_of(h[0].0) + ":"@ + json_string_of(h[0].1)
    } else {
        members_json(h.drop_last()) + ","@ + json_string_of(h.last().0) + ":"@ + json_string_of(h.last().1)
    }
}

/// The headers as a JSON object, as `serde_json` writes a map of them:
/// names in order, no spaces.
pub open spec fn headers_json_spec(h: Seq<(Seq<char>, Seq<char>)>) -> Seq<char> {
    "{"@ + members_json(sort_by_name(h)) + "}"@
}

/// The JSON text of a request event: its headers, method, body (when it
/// has one) and URL, keys in order.
pub open spec fn request_event_json_spec(
    url: Seq<char>,
    method: Seq<char>,
    h: Seq<(Seq<char>, Seq<char>)>,
    post_data: Option<Seq<char>>,
) -> Seq<char> {
    "{\"headers\":"@ + headers_json_spec(h) + ",\"method\":"@ + json_string_of(method) + match post_data {
        Some(p) => ",\"postData\":"@ + json_string_of(p),
        None => Seq::empty(),
    } + ",\"url\":"@ + json_string_of(url) + "}"@
}

/// The JSON text of a response event: its headers, status and URL, keys
/// in order.
pub open spec fn response_event_json_spec(url: Seq<char>, status: u16, h: Seq<(Seq<char>, Seq<char>)>) -> Seq<char> {
    "{\"headers\":"@ + headers_json_spec(h) + ",\"status\":"@ + decimal_spec(status as nat) + ",\"url\":"@
        + json_string_of(url) + "}"@
}

/// Whether `a` comes before `b` (see `text_less`).
pub fn name_less(a: &str, b: &str) -> (r: bool)
    ensures
        r == text_less(a@, b@),
{
    let x = chars_of(a);
    let y = chars_of(b);
    let mut i: usize = 0;
    assert(x@.skip(0) =~= x@);
    assert(y@.skip(0) =~= y@);
    while i < x.len() && i < y.len() && x[i] == y[i]
        invariant
            i <= x@.len(),
            i <= y@.len(),
            x@.take(i as int) == y@.take(i as int),
            text_less(x@, y@) == text_less(x@.skip(i as int), y@.skip(i as int)),
        decreases x.len() - i,
    {
        proof {
            let xs = x@.skip(i as int);
            let ys = y@.skip(i as int);
            assert(xs.drop_first() =~= x@.skip(i + 1));
            assert(ys.drop_first() =~= y@.skip(i + 1));
            assert(x@.take(i + 1) =~= x@.take(i as int).push(x@[i as int]));
            assert(y@.take(i + 1) =~= y@.take(i as int).push(y@[i as int]));
        }
        i = i + 1;
    }
    proof {
        assert(x@.skip(i as int).len() == x@.len() - i);
        assert(y@.skip(i as int).len() == y@.len() - i);
        if i < x.len() && i < y.len() {
            assert(x@.skip(i as int)[0] == x@[i as int]);
            assert(y@.skip(i as int)[0] == y@[i as int]);
        }
    }
    if i == x.len() {
        i < y.len()
    } else if i == y.len() {
        false
    } else {
        (x[i] as u32) < (y[i] as u32)
    }
}

proof fn lemma_insert_at(x: (Seq<char>, Seq<char>), h: Seq<(Seq<char>, Seq<char>)>, i: int)
    requires
        0 <= i <= h.len(),
        forall|j: int| 0 <= j < i ==> !text_less(x.0, #[trigger] h[j].0),
        i < h.len() ==> text_less(x.0, h[i].0),
    ensures
        insert_by_name(x, h) == h.take(i).push(x) + h.skip(i),
    decreases h.len(),
{
    if h.len() == 0 {
        assert(h.take(i).push(x) + h.skip(i) =~= seq![x]);
    } else if i == 0 {
        assert(h.take(0).push(x) + h.skip(0) =~= seq![x] + h);
    } else {
        assert forall|j: int| 0 <= j < i - 1 implies !text_less(x.0, #[trigger] h.drop_first()[j].0) by {
            assert(h.drop_first()[j] == h[j + 1]);
        }
        lemma_insert_at(x, h.drop_first(), i - 1);
        assert(seq![h[0]] + (h.drop_first().take(i - 1).push(x) + h.drop_first().skip(i - 1)) =~= h.take(i).push(x)
            + h.skip(i));
    }
}

fn clone_header(p: &Header) -> (r: Header)
    ensures
        r.0@ == p.0@,
        r.1@ == p.1@,
{
    (p.0.clone(), p.1.clone())
}

/// The headers ordered by name (see `sort_by_name`).
pub fn sorted_by_name(headers: &Vec<Header>) -> (r: Vec<Header>)
    ensures
        headers_view(r@) == sort_by_name(headers_view(headers@)),
{
    let mut out: Vec<Header> = Vec::new();
    let mut k: usize = 0;
    while k < headers.len()
        invariant
            k <= headers@.len(),
            headers_view(out@) == sort_by_name(headers_view(headers@.take(k as int))),
        decreases headers.len() - k,
    {
        let x = clone_header(&headers[k]);
        let ghost xv = (x.0@, x.1@);
        let ghost hv = headers_view(out@);
        let mut i: usize = 0;
        while i < out.len() && !name_less(x.0.as_str(), out[i].0.as_str())
            invariant
                i <= out@.len(),
                hv == headers_view(out@),
                xv == (x.0@, x.1@),
                forall|j: int| 0 <= j < i ==> !text_less(xv.0, #[trigger] hv[j].0),
            decreases out.len() - i,
        {
            i = i + 1;
        }
        proof {
            lemma_insert_at(xv, hv, i as int);
        }
        out.insert(i, x);
        proof {
            assert(headers_view(out@) =~= hv.take(i as int).push(xv) + hv.skip(i as int));
            assert(headers_view(headers@.take(k + 1)).drop_last() =~= headers_view(headers@.take(k as int)));
            assert(headers_view(headers@.take(k + 1)).last() == xv);
        }
        k = k + 1;
    }
    assert(headers@.take(headers@.len() as int) =~= headers@);
    out
}

fn push_members(out: &mut Vec<char>, h: &Vec<Header>)
    ensures
        final(out)@ == old(out)@ + members_json(headers_view(h@)),
{
    let ghost start = out@;
    let mut i: usize = 0;
    while i < h.len()
        invariant
            i <= h@.len(),
            out@ == start + members_json(headers_view(h@.take(i as int))),
        decreases h.len() - i,
    {
        if i > 0 {
            push_str(out, ",");
        }
        let name = json_string(h[i].0.as_str());
        push_str(out, name.as_str());
        push_str(out, ":");
        let value = json_string(h[i].1.as_str());
        push_str(out, value.as_str());
        proof {
            assert(headers_view(h@.take(i + 1)).drop_last() =~= headers_view(h@.take(i as int)));
            assert(headers_view(h@.take(i + 1)).last() == (h@[i as int].0@, h@[i as int].1@));
            if i == 0 {
                assert(headers_view(h@.take(1))[0] == (h@[0].0@, h@[0].1@));
            }
        }
        i = i + 1;
        assert(out@ =~= start + members_json(headers_view(h@.take(i as int))));
    }
    assert(h@.take(h@.len() as int) =~= h@);
}

fn push_headers_json(out: &mut Vec<char>, headers: &Vec<Header>)
    ensures
        final(out)@ == old(out)@ + headers_json_spec(headers_view(headers@)),
{
    let sorted = sorted_by_name(headers);
    push_str(out, "{");
    push_members(out, &sorted);
    push_str(out, "}");
    assert(final(out)@ =~= old(out)@ + headers_json_spec(headers_view(headers@)));
}

/// The JSON text of a request event (see `request_event_json_spec`).
pub fn request_event_json(url: &str, method: &str, headers: &Vec<Header>, post_data: Option<&str>) -> (r: String)
    requires
        distinct_names(headers_view(headers@)),
    ensures
        r@ == request_event_json_spec(url@, method@, headers_view(headers@), match post_data {
            Some(p) => Some(p@),
            None => None,
        }),
{
    let mut out: Vec<char> = Vec::new();
    push_str(&mut out, "{\"headers\":");
    push_headers_json(&mut out, headers);
    push_str(&mut out, ",\"method\":");
    let m = json_string(method);
    push_str(&mut out, m.as_str());
    match post_data {
        Some(p) => {
            push_str(&mut out, ",\"postData\":");
            let pj = json_string(p);
            push_str(&mut out, pj.as_str());
        },
        None => {},
    }
    push_str(&mut out, ",\"url\":");
    let u = json_string(url);
    push_str(&mut out, u.as_str());
    push_str(&mut out, "}");
    assert(out@ =~= request_event_json_spec(url@, method@, headers_view(headers@), match post_data {
        Some(p) => Some(p@),
        None => None,
    }));
    string_from_chars(&out)
}

/// The JSON text of a response event (see `response_event_json_spec`).
pub fn response_event_json(url: &str, status: u16, headers: &Vec<Header>) -> (r: String)
    requires
        distinct_names(headers_view(headers@)),
    ensures
        r@ == response_event_json_spec(url@, status, headers_view(headers@)),
{
    let mut out: Vec<char> = Vec::new();
    push_str(&mut out, "{\"headers\":");
    push_headers_json(&mut out, headers);
    push_str(&mut out, ",\"status\":");
    push_decimal(&mut out, status as u64);
    push_str(&mut out, ",\"url\":");
    let u = json_string(url);
    push_str(&mut out, u.as_str());
    push_str(&mut out, "}");
    assert(out@ =~= response_event_json_spec(url@, status, headers_view(headers@)));
    string_from_chars(&out)
}

} // verus!
