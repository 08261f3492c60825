use vstd::prelude::*;

verus! {

broadcast use vstd::string::group_string_axioms;

/// Appends one character to a string (`String::push`).
#[verifier::external_body]
pub(crate) fn push_char(s: &mut String, c: char)
    ensures
        final(s)@ == old(s)@.push(c),
{
    s.push(c);
}

/// The characters of `s`, in order.
pub fn chars_of(s: &str) -> (v: Vec<char>)
    ensures
        v@ == s@,
{
    let mut v: Vec<char> = Vec::new();
    for c in it: s.chars()
        invariant
            v@ == it.seq().take(it.index() as int),
    {
        v.push(c);
    }
    v
}

} // verus!

verus! {

/// A string built from the given characters.
pub fn string_from_chars(v: &Vec<char>) -> (s: String)
    ensures
        s@ == v@,
{
    let mut s = String::new();
    let mut i: usize = 0;
    while i < v.len()
        invariant
            i <= v.len(),
            s@ == v@.take(i as int),
        decreases v.len() - i,
    {
        push_char(&mut s, v[i]);
        i = i + 1;
        assert(s@ =~= v@.take(i as int));
    }
    assert(v@.take(v.len() as int) =~= v@);
    s
}

/// `rep` inserted before every character of `s` and once more at its end:
/// what replacing the empty pattern gives.
pub open spec fn interleave_spec(s: Seq<char>, rep: Seq<char>) -> Seq<char>
    decreases s.len(),
{
    if s.len() == 0 {
        rep
    } else {
        rep + seq![s[0]] + interleave_spec(s.drop_first(), rep)
    }
}

/// Every non-overlapping occurrence of `pat` in `s`, scanned from the left,
/// replaced by `rep` (the meaning of `str::replace`).
pub open spec fn replace_spec(s: Seq<char>, pat: Seq<char>, rep: Seq<char>) -> Seq<char>
    decreases s.len(),
{
    if pat.len() == 0 {
        interleave_spec(s, rep)
    } else if s.len() < pat.len() {
        s
    } else if s.take(pat.len() as int) == pat {
        rep + replace_spec(s.skip(pat.len() as int), pat, rep)
    } else {
        seq![s[0]] + replace_spec(s.drop_first(), pat, rep)
    }
}

/// A character of `s` with every `p` replaced by `rep` is a character of
/// `s` other than `p`, or a character of `rep`.
pub proof fn lemma_replace_char_members(s: Seq<char>, p: char, rep: Seq<char>, c: char)
    ensures
        replace_spec(s, seq![p], rep).contains(c) ==> (s.contains(c) && c != p) || rep.contains(c),
    decreases s.len(),
{
    let r = replace_spec(s, seq![p], rep);
    if s.len() >= 1 {
        lemma_replace_char_members(s.drop_first(), p, rep, c);
        if r.contains(c) {
            let i = choose|i: int| 0 <= i < r.len() && r[i] == c;
            if s.take(1) == seq![p] {
                let tail = replace_spec(s.skip(1), seq![p], rep);
                assert(s.skip(1) =~= s.drop_first());
                assert(r == rep + tail);
                if i >= rep.len() {
                    assert(tail[i - rep.len()] == c);
                    assert(tail.contains(c));
                    if s.drop_first().contains(c) && c != p {
                        let k = choose|k: int| 0 <= k < s.drop_first().len() && s.drop_first()[k] == c;
                        assert(s[k + 1] == c);
                    }
                } else {
                    assert(rep[i] == c);
                }
            } else {
                let tail = replace_spec(s.drop_first(), seq![p], rep);
                assert(r == seq![s[0]] + tail);
                if i == 0 {
                    assert(s[0] == c);
                    assert(s.take(1)[0] == s[0]);
                    assert(s.take(1) =~= seq![s[0]]);
                } else {
                    assert(tail[i - 1] == c);
                    if s.drop_first().contains(c) && c != p {
                        let k = choose|k: int| 0 <= k < s.drop_first().len() && s.drop_first()[k] == c;
                        assert(s[k + 1] == c);
                    }
                }
            }
        }
    }
}

/// Whether `p` occurs in `v` at position `i`.
pub fn occurs_at(v: &Vec<char>, i: usize, p: &Vec<char>) -> (r: bool)
    requires
        i <= v.len(),
    ensures
        r == (p.len() <= v.len() - i && v@.skip(i as int).take(p.len() as int) == p@),
{
    if p.len() > v.len() - i {
        return false;
    }
    let mut j: usize = 0;
    while j < p.len()
        invariant
            j <= p.len(),
            p.len() <= v.len() - i,
            forall|k: int| 0 <= k < j ==> v@[i + k] == p@[k],
        decreases p.len() - j,
    {
        if v[i + j] != p[j] {
            assert(v@.skip(i as int).take(p.len() as int)[j as int] != p@[j as int]);
            return false;
        }
        j = j + 1;
    }
    assert(v@.skip(i as int).take(p.len() as int) =~= p@);
    true
}

fn interleave(v: &Vec<char>, rep: &Vec<char>) -> (out: Vec<char>)
    ensures
        out@ == interleave_spec(v@, rep@),
{
    let mut out: Vec<char> = Vec::new();
    let mut i: usize = 0;
    assert(v@.skip(0) =~= v@);
    while i < v.len()
        invariant
            i <= v.len(),
            interleave_spec(v@, rep@) == out@ + interleave_spec(v@.skip(i as int), rep@),
        decreases v.len() - i,
    {
        let ghost rest = v@.skip(i as int);
        assert(rest.drop_first() =~= v@.skip(i + 1));
        append_chars(&mut out, rep);
        out.push(v[i]);
        i = i + 1;
        assert(interleave_spec(v@, rep@) =~= out@ + interleave_spec(v@.skip(i as int), rep@));
    }
    append_chars(&mut out, rep);
    assert(out@ =~= interleave_spec(v@, rep@));
    out
}

/// Appends the characters of `w` to `out`.
pub fn append_chars(out: &mut Vec<char>, w: &Vec<char>)
    ensures
        final(out)@ == old(out)@ + w@,
{
    let mut j: usize = 0;
    while j < w.len()
        invariant
            j <= w.len(),
            out@ == old(out)@ + w@.take(j as int),
        decreases w.len() - j,
    {
        out.push(w[j]);
        j = j + 1;
        assert(out@ =~= old(out)@ + w@.take(j as int));
    }
    assert(w@.take(w.len() as int) =~= w@);
}

/// `str::replace` on character vectors.
pub fn replace_chars(v: &Vec<char>, p: &Vec<char>, rep: &Vec<char>) -> (out: Vec<char>)
    ensures
        out@ == replace_spec(v@, p@, rep@),
{
    if p.len() == 0 {
        return interleave(v, rep);
    }
    let mut out: Vec<char> = Vec::new();
    let mut i: usize = 0;
    assert(v@.skip(0) =~= v@);
    while i < v.len()
        invariant
            i <= v.len(),
            p.len() > 0,
            replace_spec(v@, p@, rep@) == out@ + replace_spec(v@.skip(i as int), p@, rep@),
        decreases v.len() - i,
    {
        let ghost rest = v@.skip(i as int);
        if occurs_at(v, i, p) {
            assert(rest.skip(p.len() as int) =~= v@.skip(i + p.len()));
            append_chars(&mut out, rep);
            i = i + p.len();
            assert(replace_spec(v@, p@, rep@) =~= out@ + replace_spec(v@.skip(i as int), p@, rep@));
        } else {
            assert(rest.drop_first() =~= v@.skip(i + 1));
            out.push(v[i]);
            i = i + 1;
            assert(replace_spec(v@, p@, rep@) =~= out@ + replace_spec(v@.skip(i as int), p@, rep@));
        }
    }
    assert(v@.skip(i as int) =~= Seq::<char>::empty());
    assert(out@ =~= replace_spec(v@, p@, rep@));
    out
}

/// `s.replace(pat, rep)`.
pub fn replace_str(s: &str, pat: &str, rep: &str) -> (out: String)
    ensures
        out@ == replace_spec(s@, pat@, rep@),
{
    let v = chars_of(s);
    let p = chars_of(pat);
    let r = chars_of(rep);
    let o = replace_chars(&v, &p, &r);
    string_from_chars(&o)
}

} // verus!
verus! {

/// The character of a decimal digit.
pub open spec fn digit_spec(d: int) -> char {
    (48 + d) as char
}

/// The decimal notation of `n`, without sign or leading zeros.
pub open spec fn decimal_spec(n: nat) -> Seq<char>
    decreases n,
{
    if n < 10 {
        seq![digit_spec(n as int)]
    } else {
        decimal_spec(n / 10).push(digit_spec((n % 10) as int))
    }
}

fn digit_char(d: u64) -> (c: char)
    requires
        d < 10,
    ensures
        c == digit_spec(d as int),
{
    let b: u8 = 48u8 + (d as u8);
    b as char
}

/// Appends the decimal notation of `n` to `out`.
pub fn push_decimal(out: &mut Vec<char>, n: u64)
    ensures
        final(out)@ == old(out)@ + decimal_spec(n as nat),
    decreases n,
{
    if n >= 10 {
        push_decimal(out, n / 10);
    }
    let c = digit_char(n % 10);
    out.push(c);
    assert(final(out)@ =~= old(out)@ + decimal_spec(n as nat)) by {
        if n >= 10 {
            assert(decimal_spec(n as nat) == decimal_spec((n / 10) as nat).push(digit_spec((n % 10) as int)));
        }
    }
}

/// The decimal notation of `n` (`n.to_string()`).
pub fn decimal_string(n: u64) -> (s: String)
    ensures
        s@ == decimal_spec(n as nat),
{
    let mut v: Vec<char> = Vec::new();
    push_decimal(&mut v, n);
    assert(v@ =~= decimal_spec(n as nat));
    string_from_chars(&v)
}

/// Whether two strings hold the same characters.
pub fn str_eq(a: &str, b: &str) -> (r: bool)
    ensures
        r == (a@ == b@),
{
    let x = chars_of(a);
    let y = chars_of(b);
    chars_eq(&x, &y)
}

/// Whether two character vectors are equal.
pub fn chars_eq(x: &Vec<char>, y: &Vec<char>) -> (r: bool)
    ensures
        r == (x@ == y@),
{
    if x.len() != y.len() {
        return false;
    }
    let mut i: usize = 0;
    while i < x.len()
        invariant
            i <= x.len(),
            x.len() == y.len(),
            forall|k: int| 0 <= k < i ==> x@[k] == y@[k],
        decreases x.len() - i,
    {
        if x[i] != y[i] {
            return false;
        }
        i = i + 1;
    }
    assert(x@ =~= y@);
    true
}

} // verus!

verus! {

/// Appends the characters of `s` to `out`.
pub fn push_str(out: &mut Vec<char>, s: &str)
    ensures
        final(out)@ == old(out)@ + s@,
{
    let v = chars_of(s);
    append_chars(out, &v);
}

/// The text of an optional string.
pub open spec fn opt_view(o: Option<String>) -> Option<Seq<char>> {
    match o {
        Some(s) => Some(s@),
        None => None,
    }
}

/// The texts of a list of strings.
pub open spec fn strings_view(v: Seq<String>) -> Seq<Seq<char>> {
    v.map_values(|s: String| s@)
}

/// Whether `c` is a lowercase hexadecimal digit.
pub open spec fn is_lower_hex(c: char) -> bool {
    ('0' <= c && c <= '9') || ('a' <= c && c <= 'f')
}

} // verus!

verus! {

/// The position of the first `c` in `s`, if any.
pub open spec fn find_char_spec(s: Seq<char>, c: char) -> Option<int>
    decreases s.len(),
{
    if s.len() == 0 {
        None
    } else if s[0] == c {
        Some(0)
    } else {
        match find_char_spec(s.drop_first(), c) {
            Some(i) => Some(i + 1),
            None => None,
        }
    }
}

/// A line that ended with a newline, without a carriage return before it.
pub open spec fn strip_cr(line: Seq<char>) -> Seq<char> {
    if line.len() > 0 && line.last() == '\r' {
        line.drop_last()
    } else {
        line
    }
}

/// The lines of `s` as `str::lines` yields them: split after each `\n`,
/// the `\n` (and a `\r` just before it) dropped; a last line without `\n`
/// is kept as it is; no empty line after a final `\n`.
pub open spec fn lines_spec(s: Seq<char>) -> Seq<Seq<char>>
    decreases s.len(),
{
    if s.len() == 0 {
        Seq::empty()
    } else {
        proof {
            lemma_find_char(s, '\n');
        }
        match find_char_spec(s, '\n') {
            Some(i) => seq![strip_cr(s.take(i))] + lines_spec(s.skip(i + 1)),
            None => seq![s],
        }
    }
}

/// The first line of `s`, or the empty text when `s` has none
/// (`s.lines().next().unwrap_or("")`).
pub open spec fn first_line_spec(s: Seq<char>) -> Seq<char> {
    if lines_spec(s).len() > 0 {
        lines_spec(s)[0]
    } else {
        Seq::empty()
    }
}

pub proof fn lemma_find_char(s: Seq<char>, c: char)
    ensures
        match find_char_spec(s, c) {
            Some(i) => 0 <= i < s.len() && s[i] == c && forall|k: int| 0 <= k < i ==> s[k] != c,
            None => forall|k: int| 0 <= k < s.len() ==> s[k] != c,
        },
    decreases s.len(),
{
    if s.len() > 0 {
        lemma_find_char(s.drop_first(), c);
        if s[0] != c {
            match find_char_spec(s.drop_first(), c) {
                Some(i) => {
                    assert forall|k: int| 0 <= k < i + 1 implies s[k] != c by {
                        if k > 0 {
                            assert(s[k] == s.drop_first()[k - 1]);
                        }
                    }
                },
                None => {
                    assert forall|k: int| 0 <= k < s.len() implies s[k] != c by {
                        if k > 0 {
                            assert(s[k] == s.drop_first()[k - 1]);
                        }
                    }
                },
            }
        }
    }
}

proof fn lemma_find_char_at(s: Seq<char>, c: char, i: int)
    requires
        0 <= i <= s.len(),
        forall|k: int| 0 <= k < i ==> s[k] != c,
    ensures
        find_char_spec(s, c) == match find_char_spec(s.skip(i), c) {
            Some(j) => Some(i + j),
            None => None::<int>,
        },
    decreases i,
{
    if i > 0 {
        assert(s.drop_first().skip(i - 1) =~= s.skip(i));
        lemma_find_char_at(s.drop_first(), c, i - 1);
    } else {
        assert(s.skip(0) =~= s);
    }
}

/// The lines of `v` (see `lines_spec`).
pub fn lines_of_chars(v: &Vec<char>) -> (r: Vec<Vec<char>>)
    ensures
        r@.len() == lines_spec(v@).len(),
        forall|k: int| 0 <= k < r@.len() ==> #[trigger] r@[k]@ == lines_spec(v@)[k],
{
    let mut r: Vec<Vec<char>> = Vec::new();
    let mut start: usize = 0;
    let mut cur: Vec<char> = Vec::new();
    let mut i: usize = 0;
    assert(v@.skip(0) =~= v@);
    while i < v.len()
        invariant
            start <= i <= v.len(),
            cur@ == v@.subrange(start as int, i as int),
            forall|k: int| start <= k < i ==> v@[k] != '\n',
            lines_spec(v@).len() == r@.len() + lines_spec(v@.skip(start as int)).len(),
            forall|k: int| 0 <= k < r@.len() ==> #[trigger] r@[k]@ == lines_spec(v@)[k],
            forall|k: int| 0 <= k < lines_spec(v@.skip(start as int)).len() ==>
                #[trigger] lines_spec(v@.skip(start as int))[k] == lines_spec(v@)[r@.len() + k],
        decreases v.len() - i,
    {
        let ghost rest = v@.skip(start as int);
        if v[i] == '\n' {
            proof {
                assert forall|k: int| 0 <= k < i - start implies rest[k] != '\n' by {
                    assert(rest[k] == v@[start + k]);
                }
                lemma_find_char_at(rest, '\n', (i - start) as int);
                assert(rest.skip(i - start)[0] == '\n');
                assert(rest.take(i - start) =~= cur@);
                assert(rest.skip(i - start + 1) =~= v@.skip(i + 1));
                assert(lines_spec(rest) == seq![strip_cr(cur@)] + lines_spec(v@.skip(i + 1)));
            }
            let mut line = cur;
            if line.len() > 0 && line[line.len() - 1] == '\r' {
                line.pop();
            }
            proof {
                assert(line@ =~= strip_cr(cur@));
            }
            let ghost old_r = r@;
            r.push(line);
            proof {
                assert forall|k: int| 0 <= k < r@.len() implies #[trigger] r@[k]@ == lines_spec(v@)[k] by {
                    if k == old_r.len() {
                        assert(lines_spec(rest)[0] == strip_cr(cur@));
                    }
                }
                assert forall|k: int| 0 <= k < lines_spec(v@.skip(i + 1)).len() implies
                    #[trigger] lines_spec(v@.skip(i + 1))[k] == lines_spec(v@)[r@.len() + k] by {
                    assert(lines_spec(rest)[k + 1] == lines_spec(v@.skip(i + 1))[k]);
                }
            }
            cur = Vec::new();
            start = i + 1;
            i = i + 1;
            assert(cur@ =~= v@.subrange(start as int, i as int));
        } else {
            cur.push(v[i]);
            i = i + 1;
            assert(cur@ =~= v@.subrange(start as int, i as int));
        }
    }
    let ghost rest = v@.skip(start as int);
    if start < v.len() {
        proof {
            assert forall|k: int| 0 <= k < rest.len() implies rest[k] != '\n' by {
                assert(rest[k] == v@[start + k]);
            }
            lemma_find_char(rest, '\n');
            assert(rest =~= cur@);
        }
        let ghost old_r = r@;
        r.push(cur);
        proof {
            assert forall|k: int| 0 <= k < r@.len() implies #[trigger] r@[k]@ == lines_spec(v@)[k] by {
                if k == old_r.len() {
                    assert(lines_spec(rest)[0] == rest);
                }
            }
        }
    } else {
        assert(rest.len() == 0);
    }
    r
}

} // verus!

verus! {

/// The Unicode `White_Space` characters, which `char::is_whitespace` accepts.
pub open spec fn is_whitespace_spec(c: char) -> bool {
    let n = c as u32;
    (0x09 <= n && n <= 0x0D) || n == 0x20 || n == 0x85 || n == 0xA0 || n == 0x1680 || (0x2000 <= n
        && n <= 0x200A) || n == 0x2028 || n == 0x2029 || n == 0x202F || n == 0x205F || n == 0x3000
}

/// Whether `c` is whitespace (`char::is_whitespace`).
pub fn is_whitespace(c: char) -> (r: bool)
    ensures
        r == is_whitespace_spec(c),
{
    let n = c as u32;
    (0x09 <= n && n <= 0x0D) || n == 0x20 || n == 0x85 || n == 0xA0 || n == 0x1680 || (0x2000 <= n
        && n <= 0x200A) || n == 0x2028 || n == 0x2029 || n == 0x202F || n == 0x205F || n == 0x3000
}

/// `s` without leading whitespace.
pub open spec fn trim_start_spec(s: Seq<char>) -> Seq<char>
    decreases s.len(),
{
    if s.len() > 0 && is_whitespace_spec(s[0]) {
        trim_start_spec(s.drop_first())
    } else {
        s
    }
}

/// `s` without trailing whitespace.
pub open spec fn trim_end_spec(s: Seq<char>) -> Seq<char>
    decreases s.len(),
{
    if s.len() > 0 && is_whitespace_spec(s.last()) {
        trim_end_spec(s.drop_last())
    } else {
        s
    }
}

/// A character with the ASCII capitals mapped to the small letters.
pub open spec fn ascii_lower_char(c: char) -> char {
    if 'A' <= c && c <= 'Z' { ((c as u32) + 32) as char } else { c }
}

/// Whether every character of `s` is ASCII.
pub open spec fn all_ascii(s: Seq<char>) -> bool {
    forall|i: int| 0 <= i < s.len() ==> (#[trigger] s[i] as u32) < 128
}

proof fn lemma_trim_start_ascii(s: Seq<char>)
    requires
        all_ascii(s),
    ensures
        all_ascii(trim_start_spec(s)),
    decreases s.len(),
{
    if s.len() > 0 && is_whitespace_spec(s[0]) {
        assert forall|i: int| 0 <= i < s.drop_first().len() implies (#[trigger] s.drop_first()[i] as u32) < 128 by {
            assert(s.drop_first()[i] == s[i + 1]);
        }
        lemma_trim_start_ascii(s.drop_first());
    }
}

proof fn lemma_trim_end_ascii(s: Seq<char>)
    requires
        all_ascii(s),
    ensures
        all_ascii(trim_end_spec(s)),
    decreases s.len(),
{
    if s.len() > 0 && is_whitespace_spec(s.last()) {
        assert forall|i: int| 0 <= i < s.drop_last().len() implies (#[trigger] s.drop_last()[i] as u32) < 128 by {
            assert(s.drop_last()[i] == s[i]);
        }
        lemma_trim_end_ascii(s.drop_last());
    }
}

/// Trimming ASCII text leaves ASCII text.
pub proof fn lemma_trim_ascii(s: Seq<char>)
    requires
        all_ascii(s),
    ensures
        all_ascii(trim_spec(s)),
{
    lemma_trim_start_ascii(s);
    lemma_trim_end_ascii(trim_start_spec(s));
}

/// `s` without leading or trailing whitespace (`str::trim`).
pub open spec fn trim_spec(s: Seq<char>) -> Seq<char> {
    trim_end_spec(trim_start_spec(s))
}

/// `v` without leading or trailing whitespace.
pub fn trim_chars(v: &Vec<char>) -> (r: Vec<char>)
    ensures
        r@ == trim_spec(v@),
{
    let mut a: usize = 0;
    assert(v@.skip(0) =~= v@);
    while a < v.len() && is_whitespace(v[a])
        invariant
            a <= v.len(),
            trim_start_spec(v@) == trim_start_spec(v@.skip(a as int)),
        decreases v.len() - a,
    {
        assert(v@.skip(a as int).drop_first() =~= v@.skip(a + 1));
        a = a + 1;
    }
    let ghost t = v@.skip(a as int);
    assert(trim_start_spec(v@) == t);
    let mut b: usize = v.len();
    assert(t.take(t.len() as int) =~= t);
    while b > a && is_whitespace(v[b - 1])
        invariant
            a <= b <= v.len(),
            t == v@.skip(a as int),
            trim_end_spec(t) == trim_end_spec(t.take(b - a)),
        decreases b,
    {
        assert(t.take(b - a).drop_last() =~= t.take(b - a - 1));
        b = b - 1;
    }
    let mut r: Vec<char> = Vec::new();
    let mut i: usize = a;
    while i < b
        invariant
            a <= i <= b <= v.len(),
            r@ == v@.subrange(a as int, i as int),
        decreases b - i,
    {
        r.push(v[i]);
        i = i + 1;
        assert(r@ =~= v@.subrange(a as int, i as int));
    }
    assert(r@ =~= t.take(b - a));
    r
}

/// `v` without trailing whitespace.
pub fn trim_end_chars(v: &Vec<char>) -> (r: Vec<char>)
    ensures
        r@ == trim_end_spec(v@),
{
    let mut b: usize = v.len();
    assert(v@.take(v.len() as int) =~= v@);
    while b > 0 && is_whitespace(v[b - 1])
        invariant
            b <= v.len(),
            trim_end_spec(v@) == trim_end_spec(v@.take(b as int)),
        decreases b,
    {
        assert(v@.take(b as int).drop_last() =~= v@.take(b - 1));
        b = b - 1;
    }
    let r = subrange_chars(v, 0, b);
    assert(r@ =~= v@.take(b as int));
    r
}

/// The pieces of `s` between occurrences of `c` (`str::split` on a
/// character): empty pieces kept, at least one piece.
pub open spec fn split_spec(s: Seq<char>, c: char) -> Seq<Seq<char>>
    decreases s.len(),
{
    proof {
        lemma_find_char(s, c);
    }
    match find_char_spec(s, c) {
        Some(i) => seq![s.take(i)] + split_spec(s.skip(i + 1), c),
        None => seq![s],
    }
}

/// The pieces of ASCII text are ASCII text.
pub proof fn lemma_split_ascii(s: Seq<char>, c: char)
    requires
        all_ascii(s),
    ensures
        forall|k: int| 0 <= k < split_spec(s, c).len() ==> all_ascii(#[trigger] split_spec(s, c)[k]),
    decreases s.len(),
{
    lemma_find_char(s, c);
    match find_char_spec(s, c) {
        Some(i) => {
            let rest = s.skip(i + 1);
            assert forall|j: int| 0 <= j < rest.len() implies (#[trigger] rest[j] as u32) < 128 by {
                assert(rest[j] == s[i + 1 + j]);
            }
            lemma_split_ascii(rest, c);
            let head = s.take(i);
            assert forall|j: int| 0 <= j < head.len() implies (#[trigger] head[j] as u32) < 128 by {
                assert(head[j] == s[j]);
            }
            assert forall|k: int| 0 <= k < split_spec(s, c).len() implies all_ascii(#[trigger] split_spec(s, c)[k]) by {
                if k > 0 {
                    assert(split_spec(s, c)[k] == split_spec(rest, c)[k - 1]);
                }
            }
        },
        None => {},
    }
}

/// The pieces of `v` between occurrences of `c` (see `split_spec`).
pub fn split_chars(v: &Vec<char>, c: char) -> (r: Vec<Vec<char>>)
    ensures
        r@.len() == split_spec(v@, c).len(),
        forall|k: int| 0 <= k < r@.len() ==> #[trigger] r@[k]@ == split_spec(v@, c)[k],
{
    let mut r: Vec<Vec<char>> = Vec::new();
    let mut start: usize = 0;
    let mut cur: Vec<char> = Vec::new();
    let mut i: usize = 0;
    assert(v@.skip(0) =~= v@);
    while i < v.len()
        invariant
            start <= i <= v.len(),
            cur@ == v@.subrange(start as int, i as int),
            forall|k: int| start <= k < i ==> v@[k] != c,
            split_spec(v@, c).len() == r@.len() + split_spec(v@.skip(start as int), c).len(),
            forall|k: int| 0 <= k < r@.len() ==> #[trigger] r@[k]@ == split_spec(v@, c)[k],
            forall|k: int| 0 <= k < split_spec(v@.skip(start as int), c).len() ==>
                #[trigger] split_spec(v@.skip(start as int), c)[k] == split_spec(v@, c)[r@.len() + k],
        decreases v.len() - i,
    {
        let ghost rest = v@.skip(start as int);
        if v[i] == c {
            proof {
                assert forall|k: int| 0 <= k < i - start implies rest[k] != c by {
                    assert(rest[k] == v@[start + k]);
                }
                lemma_find_char_at(rest, c, (i - start) as int);
                assert(rest.skip(i - start)[0] == c);
                assert(rest.take(i - start) =~= cur@);
                assert(rest.skip(i - start + 1) =~= v@.skip(i + 1));
                assert(split_spec(rest, c) == seq![cur@] + split_spec(v@.skip(i + 1), c));
            }
            let ghost old_r = r@;
            r.push(cur);
            proof {
                assert forall|k: int| 0 <= k < r@.len() implies #[trigger] r@[k]@ == split_spec(v@, c)[k] by {
                    if k == old_r.len() {
                        assert(split_spec(rest, c)[0] == cur@);
                    }
                }
                assert forall|k: int| 0 <= k < split_spec(v@.skip(i + 1), c).len() implies
                    #[trigger] split_spec(v@.skip(i + 1), c)[k] == split_spec(v@, c)[r@.len() + k] by {
                    assert(split_spec(rest, c)[k + 1] == split_spec(v@.skip(i + 1), c)[k]);
                }
            }
            cur = Vec::new();
            start = i + 1;
            i = i + 1;
            assert(cur@ =~= v@.subrange(start as int, i as int));
        } else {
            cur.push(v[i]);
            i = i + 1;
            assert(cur@ =~= v@.subrange(start as int, i as int));
        }
    }
    let ghost rest = v@.skip(start as int);
    proof {
        assert forall|k: int| 0 <= k < rest.len() implies rest[k] != c by {
            assert(rest[k] == v@[start + k]);
        }
        lemma_find_char(rest, c);
        assert(rest =~= cur@);
    }
    let ghost old_r = r@;
    r.push(cur);
    proof {
        assert forall|k: int| 0 <= k < r@.len() implies #[trigger] r@[k]@ == split_spec(v@, c)[k] by {
            if k == old_r.len() {
                assert(split_spec(rest, c)[0] == rest);
            }
        }
    }
    r
}

/// The first line of `s` (see `first_line_spec`).
pub fn first_line(s: &str) -> (r: Vec<char>)
    ensures
        r@ == first_line_spec(s@),
{
    let v = chars_of(s);
    let ls = lines_of_chars(&v);
    let mut r: Vec<char> = Vec::new();
    if ls.len() > 0 {
        append_chars(&mut r, &ls[0]);
        assert(r@ =~= first_line_spec(s@));
    }
    r
}

/// Whether `s` begins with `p`.
pub open spec fn has_prefix(s: Seq<char>, p: Seq<char>) -> bool {
    p.len() <= s.len() && s.take(p.len() as int) == p
}

/// Whether `s` ends with `p`.
pub open spec fn has_suffix(s: Seq<char>, p: Seq<char>) -> bool {
    p.len() <= s.len() && s.skip(s.len() - p.len()) == p
}

/// `s` with every leading copy of `p` removed, as `str::trim_start_matches`
/// does (nothing is removed for an empty `p`).
pub open spec fn trim_start_matches_spec(s: Seq<char>, p: Seq<char>) -> Seq<char>
    decreases s.len(),
{
    if p.len() > 0 && has_prefix(s, p) {
        trim_start_matches_spec(s.skip(p.len() as int), p)
    } else {
        s
    }
}

/// The characters of `v` from position `a` to position `b`.
pub fn subrange_chars(v: &Vec<char>, a: usize, b: usize) -> (r: Vec<char>)
    requires
        a <= b <= v.len(),
    ensures
        r@ == v@.subrange(a as int, b as int),
{
    let mut r: Vec<char> = Vec::new();
    let mut i: usize = a;
    while i < b
        invariant
            a <= i <= b <= v.len(),
            r@ == v@.subrange(a as int, i as int),
        decreases b - i,
    {
        r.push(v[i]);
        i = i + 1;
        assert(r@ =~= v@.subrange(a as int, i as int));
    }
    r
}

/// Whether `v` begins with `p`.
pub fn starts_with_chars(v: &Vec<char>, p: &Vec<char>) -> (r: bool)
    ensures
        r == has_prefix(v@, p@),
{
    assert(v@.skip(0) =~= v@);
    occurs_at(v, 0, p)
}

/// Whether `v` ends with `p`.
pub fn ends_with_chars(v: &Vec<char>, p: &Vec<char>) -> (r: bool)
    ensures
        r == has_suffix(v@, p@),
{
    if p.len() > v.len() {
        false
    } else {
        let i = v.len() - p.len();
        assert(v@.skip(i as int).take(p.len() as int) =~= v@.skip(i as int));
        occurs_at(v, i, p)
    }
}

/// `v` with every leading copy of `p` removed (see
/// `trim_start_matches_spec`).
pub fn trim_start_matches_chars(v: &Vec<char>, p: &Vec<char>) -> (r: Vec<char>)
    ensures
        r@ == trim_start_matches_spec(v@, p@),
{
    if p.len() == 0 {
        return subrange_chars(v, 0, v.len());
    }
    let mut i: usize = 0;
    assert(v@.skip(0) =~= v@);
    while occurs_at(v, i, p)
        invariant
            i <= v.len(),
            p.len() > 0,
            trim_start_matches_spec(v@, p@) == trim_start_matches_spec(v@.skip(i as int), p@),
        decreases v.len() - i,
    {
        assert(v@.skip(i as int).skip(p.len() as int) =~= v@.skip(i + p.len()));
        i = i + p.len();
    }
    assert(v@.skip(i as int) =~= v@.subrange(i as int, v.len() as int));
    subrange_chars(v, i, v.len())
}

/// The position of the first `c` in `v`, if any (see `find_char_spec`).
pub fn find_char(v: &Vec<char>, c: char) -> (r: Option<usize>)
    ensures
        match r {
            Some(i) => find_char_spec(v@, c) == Some(i as int) && i < v@.len(),
            None => find_char_spec(v@, c).is_none(),
        },
{
    let mut i: usize = 0;
    while i < v.len()
        invariant
            i <= v.len(),
            forall|k: int| 0 <= k < i ==> v@[k] != c,
        decreases v.len() - i,
    {
        if v[i] == c {
            proof {
                lemma_find_char_at(v@, c, i as int);
                assert(v@.skip(i as int)[0] == c);
            }
            return Some(i);
        }
        i = i + 1;
    }
    proof {
        lemma_find_char(v@, c);
    }
    None
}

/// Whether `p` occurs somewhere in `s` (`str::contains`).
pub open spec fn contains_spec(s: Seq<char>, p: Seq<char>) -> bool {
    exists|i: int| 0 <= i && i + p.len() <= s.len() && #[trigger] s.subrange(i, i + p.len()) == p
}

/// Whether `p` occurs in `s` (see `contains_spec`).
pub fn str_contains(s: &str, p: &str) -> (r: bool)
    ensures
        r == contains_spec(s@, p@),
{
    let v = chars_of(s);
    let pv = chars_of(p);
    if pv.len() > v.len() {
        return false;
    }
    let last = v.len() - pv.len();
    let mut i: usize = 0;
    loop
        invariant
            pv.len() <= v.len(),
            last == v.len() - pv.len(),
            i <= last,
            v@ == s@,
            pv@ == p@,
            forall|k: int| 0 <= k < i ==> #[trigger] v@.subrange(k, k + pv@.len()) != pv@,
        decreases last - i,
    {
        assert(v@.skip(i as int).take(pv.len() as int) =~= v@.subrange(i as int, i + pv@.len()));
        if occurs_at(&v, i, &pv) {
            assert(v@.subrange(i as int, i + pv@.len()) == pv@);
            return true;
        }
        if i == last {
            assert forall|k: int| 0 <= k && k + p@.len() <= s@.len() implies #[trigger] s@.subrange(k, k + p@.len()) != p@ by {
                assert(k <= i);
            }
            return false;
        }
        i = i + 1;
    }
}

/// The value of a string of decimal digits.
pub open spec fn digits_value(s: Seq<char>) -> nat
    decreases s.len(),
{
    if s.len() == 0 {
        0
    } else {
        digits_value(s.drop_last()) * 10 + ((s.last() as nat) - 48) as nat
    }
}

/// Whether every character of `s` is a decimal digit.
pub open spec fn all_digits(s: Seq<char>) -> bool {
    forall|i: int| 0 <= i < s.len() ==> '0' <= #[trigger] s[i] <= '9'
}

/// What `str::parse` gives for an unsigned integer type whose largest
/// value is `max`: an optional `+`, then one or more decimal digits whose
/// value is at most `max`.
pub open spec fn parse_unsigned_spec(s: Seq<char>, max: nat) -> Option<nat> {
    let d = if s.len() > 0 && s[0] == '+' { s.skip(1) } else { s };
    if d.len() == 0 || !all_digits(d) || digits_value(d) > max {
        None
    } else {
        Some(digits_value(d))
    }
}

proof fn lemma_digits_monotone(s: Seq<char>, i: int)
    requires
        0 <= i <= s.len(),
        all_digits(s),
    ensures
        digits_value(s.take(i)) <= digits_value(s),
    decreases s.len() - i,
{
    if i < s.len() {
        lemma_digits_monotone(s, i + 1);
        assert(s.take(i + 1).drop_last() =~= s.take(i));
        assert(s.take(i + 1).last() == s[i]);
    } else {
        assert(s.take(i) =~= s);
    }
}

/// Parses an unsigned number no larger than `max` as `str::parse` does
/// (see `parse_unsigned_spec`).
pub fn parse_unsigned(s: &Vec<char>, max: u32) -> (r: Option<u32>)
    ensures
        match r {
            Some(v) => parse_unsigned_spec(s@, max as nat) == Some(v as nat),
            None => parse_unsigned_spec(s@, max as nat).is_none(),
        },
{
    let start: usize = if s.len() > 0 && s[0] == '+' { 1 } else { 0 };
    let ghost d = if s@.len() > 0 && s@[0] == '+' { s@.skip(1) } else { s@ };
    assert(d =~= s@.skip(start as int));
    if start == s.len() {
        return None;
    }
    let mut value: u64 = 0;
    let mut i: usize = start;
    while i < s.len()
        invariant
            start <= i <= s.len(),
            d == s@.skip(start as int),
            d == (if s@.len() > 0 && s@[0] == '+' { s@.skip(1) } else { s@ }),
            value == digits_value(d.take(i - start)),
            value <= max,
            all_digits(d.take(i - start)),
        decreases s.len() - i,
    {
        let c = s[i];
        assert(d.take(i - start + 1).drop_last() =~= d.take(i - start));
        assert(d[i - start] == c);
        if c < '0' || c > '9' {
            assert(!all_digits(d));
            return None;
        }
        value = value * 10 + ((c as u64) - 48);
        i = i + 1;
        assert(all_digits(d.take(i - start)));
        if value > max as u64 {
            proof {
                if all_digits(d) {
                    lemma_digits_monotone(d, (i - start) as int);
                }
            }
            return None;
        }
    }
    assert(d.take(d.len() as int) =~= d);
    Some(value as u32)
}

/// The texts of `s` joined end to end.
pub open spec fn concat_spec(s: Seq<Seq<char>>) -> Seq<char>
    decreases s.len(),
{
    if s.len() == 0 {
        Seq::empty()
    } else {
        concat_spec(s.drop_last()) + s.last()
    }
}

/// Three decimal digits of `n` (below 1000), zero-padded (`{:03}`).
pub open spec fn pad3_spec(n: nat) -> Seq<char> {
    seq![digit_spec((n / 100) as int), digit_spec(((n / 10) % 10) as int), digit_spec((n % 10) as int)]
}

/// Appends three zero-padded decimal digits of `n`.
pub fn push_pad3(out: &mut Vec<char>, n: u64)
    requires
        n < 1000,
    ensures
        final(out)@ == old(out)@ + pad3_spec(n as nat),
{
    out.push(digit_char(n / 100));
    out.push(digit_char((n / 10) % 10));
    out.push(digit_char(n % 10));
    assert(final(out)@ =~= old(out)@ + pad3_spec(n as nat));
}

/// `ms` milliseconds written in seconds with three decimals (`1.234`).
pub open spec fn seconds3_spec(ms: nat) -> Seq<char> {
    decimal_spec(ms / 1000) + "."@ + pad3_spec(ms % 1000)
}

/// Appends `ms` milliseconds in seconds with three decimals.
pub fn push_seconds3(out: &mut Vec<char>, ms: u64)
    ensures
        final(out)@ == old(out)@ + seconds3_spec(ms as nat),
{
    push_decimal(out, ms / 1000);
    push_str(out, ".");
    push_pad3(out, ms % 1000);
    assert(final(out)@ =~= old(out)@ + seconds3_spec(ms as nat));
}

/// The fractional digits of `f` thousandths, trailing zeros dropped, after
/// a point; nothing when `f` is 0.
pub open spec fn millis_fraction_spec(f: nat) -> Seq<char> {
    if f == 0 {
        Seq::empty()
    } else if f % 10 != 0 {
        "."@ + pad3_spec(f)
    } else if (f / 10) % 10 != 0 {
        "."@ + pad3_spec(f).take(2)
    } else {
        "."@ + pad3_spec(f).take(1)
    }
}

/// How `{:?}` writes `Duration::from_millis(ms)`: whole seconds with the
/// fraction's trailing zeros dropped and `s` from one second on, else
/// milliseconds and `ms`, and `0ns` for zero.
pub open spec fn duration_debug_spec(ms: nat) -> Seq<char> {
    if ms >= 1000 {
        decimal_spec(ms / 1000) + millis_fraction_spec(ms % 1000) + "s"@
    } else if ms >= 1 {
        decimal_spec(ms) + "ms"@
    } else {
        "0ns"@
    }
}

/// Appends `Duration::from_millis(ms)` as `{:?}` writes it.
pub fn push_duration_debug(out: &mut Vec<char>, ms: u64)
    ensures
        final(out)@ == old(out)@ + duration_debug_spec(ms as nat),
{
    if ms >= 1000 {
        push_decimal(out, ms / 1000);
        let f = ms % 1000;
        let ghost before = out@;
        if f == 0 {
        } else if f % 10 != 0 {
            push_str(out, ".");
            push_pad3(out, f);
        } else if (f / 10) % 10 != 0 {
            push_str(out, ".");
            out.push(digit_char(f / 100));
            out.push(digit_char((f / 10) % 10));
        } else {
            push_str(out, ".");
            out.push(digit_char(f / 100));
        }
        assert(out@ =~= before + millis_fraction_spec(f as nat));
        push_str(out, "s");
    } else if ms >= 1 {
        push_decimal(out, ms);
        push_str(out, "ms");
    } else {
        push_str(out, "0ns");
    }
    assert(final(out)@ =~= old(out)@ + duration_debug_spec(ms as nat));
}

/// `2^52 * 1000`: a multiple of a millisecond count at or above it and
/// below twice it has, divided by 1000, a whole part of 53 bits.
pub const DOUBLING_BOUND: u64 = 4503599627370496000;

/// `p` doubled until it reaches `DOUBLING_BOUND` (0 stays 0).
pub open spec fn doubled_into_range(p: nat) -> nat
    decreases (if p < DOUBLING_BOUND { DOUBLING_BOUND - p } else { 0 }),
{
    if p == 0 || p >= DOUBLING_BOUND {
        p
    } else {
        doubled_into_range(2 * p)
    }
}

/// `ms` milliseconds in hundredths of a second, rounded as the quotient
/// `ms / 1000` held in binary double precision (53 significant bits,
/// rounded to nearest) is rounded to two decimals, ties to even: below a
/// 5 in the thousandths down, above it up; at a 5 the quotient lies just
/// above or below the midpoint as the division rounded it (the bits past
/// the 53rd, read from `doubled_into_range(ms) % 1000`), and exactly on it
/// only when it is a multiple of 1/8, where the even neighbour wins.
pub open spec fn centis_rounded(ms: nat) -> nat {
    let q = ms / 10;
    let r = ms % 10;
    if r < 5 {
        q
    } else if r > 5 {
        q + 1
    } else {
        let f = doubled_into_range(ms) % 1000;
        if f == 0 {
            if q % 2 == 0 { q } else { q + 1 }
        } else if f > 500 {
            q + 1
        } else {
            q
        }
    }
}

/// `ms` milliseconds in seconds with two decimals (`1.23`), rounded as
/// `centis_rounded` describes.
pub open spec fn seconds2_spec(ms: nat) -> Seq<char> {
    let c = centis_rounded(ms);
    decimal_spec(c / 100) + seq!['.', digit_spec(((c % 100) / 10) as int), digit_spec((c % 10) as int)]
}

/// Appends `ms` milliseconds in seconds with two decimals (see
/// `seconds2_spec`).
pub fn push_seconds2(out: &mut Vec<char>, ms: u32)
    ensures
        final(out)@ == old(out)@ + seconds2_spec(ms as nat),
{
    let q: u64 = (ms / 10) as u64;
    let r: u32 = ms % 10;
    let c: u64 = if r < 5 {
        q
    } else if r > 5 {
        q + 1
    } else {
        let mut p: u64 = ms as u64;
        while p < DOUBLING_BOUND
            invariant
                0 < p < 2 * DOUBLING_BOUND,
                doubled_into_range(p as nat) == doubled_into_range(ms as nat),
            decreases 2 * DOUBLING_BOUND - p,
        {
            p = p * 2;
        }
        let f = p % 1000;
        if f == 0 {
            if q % 2 == 0 { q } else { q + 1 }
        } else if f > 500 {
            q + 1
        } else {
            q
        }
    };
    assert(c == centis_rounded(ms as nat));
    push_decimal(out, c / 100);
    out.push('.');
    out.push(digit_char((c % 100) / 10));
    out.push(digit_char(c % 10));
    assert(final(out)@ =~= old(out)@ + seconds2_spec(ms as nat));
}

} // verus!
