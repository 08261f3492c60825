use vstd::prelude::*;
use crate::text::{chars_of, string_from_chars};

verus! {

/// What `regex::Regex::new(src)` reports: `None` when it accepts the
/// expression, else the text of its error.
pub uninterp spec fn regex_new_error(src: Seq<char>) -> Option<Seq<char>>;

/// Whether `regex::Regex::new` accepts the regular expression `src`.
pub open spec fn regex_compiles(src: Seq<char>) -> bool {
    regex_new_error(src) is None
}

/// What `regex::Regex::is_match` answers for `text` on the expression
/// `src` compiled by `regex::Regex::new`.
pub uninterp spec fn regex_text_matches(src: Seq<char>, text: Seq<char>) -> bool;

/// `regex::Regex::new`, the compiled expression dropped and the error
/// written as text.
#[verifier::external_body]
pub(crate) fn check_regex(src: &str) -> (r: Result<(), String>)
    ensures
        match r {
            Ok(()) => regex_new_error(src@) is None,
            Err(e) => regex_new_error(src@) == Some(e@),
        },
{
    match regex::Regex::new(src) {
        Ok(_) => Ok(()),
        Err(e) => Err(e.to_string()),
    }
}

/// `regex::Regex::new` followed by `regex::Regex::is_match` on `text`;
/// `None` when the expression does not compile.
#[verifier::external_body]
pub(crate) fn regex_match(src: &str, text: &str) -> (r: Option<bool>)
    ensures
        r == (if regex_compiles(src@) { Some(regex_text_matches(src@, text@)) } else { None }),
{
    match regex::Regex::new(src) {
        Ok(re) => Some(re.is_match(text)),
        Err(_) => None,
    }
}

/// Whether `c` has a meaning in a regular expression and is escaped.
pub open spec fn is_regex_special(c: char) -> bool {
    c == '.' || c == '+' || c == '(' || c == ')' || c == '|' || c == '^' || c == '$' || c == '['
        || c == ']' || c == '{' || c == '}' || c == '\\'
}

/// The regular expression body for a glob: `**` matches anything, `*`
/// anything without `/`, `?` one character; characters special in regular
/// expressions are escaped; everything else stands for itself.
pub open spec fn glob_body(g: Seq<char>) -> Seq<char>
    decreases g.len(),
{
    if g.len() == 0 {
        Seq::empty()
    } else if g[0] == '*' {
        if g.len() > 1 && g[1] == '*' {
            seq!['.', '*'] + glob_body(g.skip(2))
        } else {
            seq!['[', '^', '/', ']', '*'] + glob_body(g.skip(1))
        }
    } else if g[0] == '?' {
        seq!['.'] + glob_body(g.skip(1))
    } else if is_regex_special(g[0]) {
        seq!['\\', g[0]] + glob_body(g.skip(1))
    } else {
        seq![g[0]] + glob_body(g.skip(1))
    }
}

/// The anchored regular expression for a glob.
pub open spec fn glob_to_regex_spec(g: Seq<char>) -> Seq<char> {
    seq!['^'] + glob_body(g) + seq!['$']
}

/// A URL pattern given as a glob, with the regular expression it stands
/// for, which is known to compile.
pub struct UrlPattern {
    pattern: String,
    source: String,
}

impl UrlPattern {
    #[verifier::type_invariant]
    spec fn source_compiles(self) -> bool {
        &&& self.source@ == glob_to_regex_spec(self.pattern@)
        &&& regex_compiles(self.source@)
    }
}

impl Clone for UrlPattern {
    fn clone(&self) -> (r: Self)
        ensures
            r.pattern() == self.pattern(),
    {
        proof {
            use_type_invariant(self);
        }
        UrlPattern { pattern: self.pattern.clone(), source: self.source.clone() }
    }
}

impl UrlPattern {
    /// The glob the pattern was made from.
    pub closed spec fn pattern(&self) -> Seq<char> {
        self.pattern@
    }

    /// The pattern for `pattern`: its glob turned into an anchored regular
    /// expression (see `glob_to_regex_spec`), which must compile; the
    /// compiler's message when it does not.
    pub fn new(pattern: &str) -> (r: Result<Self, String>)
        ensures
            match r {
                Ok(p) => regex_compiles(glob_to_regex_spec(pattern@)) && p.pattern() == pattern@,
                Err(e) => regex_new_error(glob_to_regex_spec(pattern@)) == Some(e@),
            },
    {
        let source = Self::glob_to_regex(pattern);
        match check_regex(source.as_str()) {
            Ok(()) => Ok(UrlPattern { pattern: pattern.to_owned(), source }),
            Err(e) => Err(e),
        }
    }

    /// Whether `url` matches the pattern's regular expression.
    pub fn matches(&self, url: &str) -> (r: bool)
        ensures
            r == regex_text_matches(glob_to_regex_spec(self.pattern()), url@),
    {
        proof {
            use_type_invariant(self);
        }
        match regex_match(self.source.as_str(), url) {
            Some(b) => b,
            None => false,
        }
    }

    /// The anchored regular expression for a glob (see
    /// `glob_to_regex_spec`).
    pub fn glob_to_regex(glob: &str) -> (r: String)
        ensures
            r@ == glob_to_regex_spec(glob@),
    {
        let g = chars_of(glob);
        let mut out: Vec<char> = Vec::new();
        out.push('^');
        let mut i: usize = 0;
        assert(g@.skip(0) =~= g@);
        while i < g.len()
            invariant
                i <= g.len(),
                seq!['^'] + glob_body(g@) == out@ + glob_body(g@.skip(i as int)),
            decreases g.len() - i,
        {
            let ghost rest = g@.skip(i as int);
            let c = g[i];
            if c == '*' {
                if i + 1 < g.len() && g[i + 1] == '*' {
                    out.push('.');
                    out.push('*');
                    assert(rest.skip(2) =~= g@.skip(i + 2));
                    i = i + 2;
                } else {
                    out.push('[');
                    out.push('^');
                    out.push('/');
                    out.push(']');
                    out.push('*');
                    assert(rest.skip(1) =~= g@.skip(i + 1));
                    i = i + 1;
                }
            } else if c == '?' {
                out.push('.');
                assert(rest.skip(1) =~= g@.skip(i + 1));
                i = i + 1;
            } else if c == '.' || c == '+' || c == '(' || c == ')' || c == '|' || c == '^' || c == '$' || c == '['
                || c == ']' || c == '{' || c == '}' || c == '\\' {
                out.push('\\');
                out.push(c);
                assert(rest.skip(1) =~= g@.skip(i + 1));
                i = i + 1;
            } else {
                out.push(c);
                assert(rest.skip(1) =~= g@.skip(i + 1));
                i = i + 1;
            }
            assert(seq!['^'] + glob_body(g@) =~= out@ + glob_body(g@.skip(i as int)));
        }
        out.push('$');
        assert(out@ =~= glob_to_regex_spec(glob@));
        string_from_chars(&out)
    }
}

} // verus!
