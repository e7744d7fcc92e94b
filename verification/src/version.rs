//! Normalizing version constraints to the three-component form
//! `major.minor.patch`.

use vstd::prelude::*;
use vstd::string::*;

verus! {

/// `s` without its leading caret, if it has one. Only one caret is taken.
pub open spec fn strip_caret(s: Seq<char>) -> Seq<char> {
    if s.len() > 0 && s[0] == '^' {
        s.subrange(1, s.len() as int)
    } else {
        s
    }
}

/// How many dots `s` holds.
pub open spec fn dot_count(s: Seq<char>) -> nat
    decreases s.len(),
{
    if s.len() == 0 {
        0
    } else {
        dot_count(s.drop_last()) + if s.last() == '.' { 1nat } else { 0nat }
    }
}

/// How many parts `s` falls into when it is split at every dot.
pub open spec fn component_count(s: Seq<char>) -> nat {
    dot_count(s) + 1
}

/// No character of `s` is a dot: `s` is a single component.
pub open spec fn dot_free(s: Seq<char>) -> bool {
    forall|i: int| 0 <= i < s.len() ==> s[i] != '.'
}

/// `s` filled up with zero components until it has three; `s` itself where it
/// has three or more already.
pub open spec fn zero_filled(s: Seq<char>) -> Seq<char> {
    if component_count(s) == 1 {
        s + ".0.0"@
    } else if component_count(s) == 2 {
        s + ".0"@
    } else {
        s
    }
}

/// The normalized form of a version constraint: the caret is dropped, then
/// missing components are filled with zeros.
pub open spec fn normalized(s: Seq<char>) -> Seq<char> {
    zero_filled(strip_caret(s))
}

/// `s` begins with two carets, so one is left after stripping.
pub open spec fn doubly_prefixed(s: Seq<char>) -> bool {
    s.len() >= 2 && s[0] == '^' && s[1] == '^'
}

/// Drops a single leading caret from `version`.
pub fn strip_leading_caret(version: &str) -> (stripped: &str)
    ensures
        stripped@ == strip_caret(version@),
{
    let n: usize = version.unicode_len();
    if n > 0 && version.get_char(0) == '^' {
        version.substring_char(1, n)
    } else {
        version
    }
}

/// Counts the dots of `text`.
pub fn count_dots(text: &str) -> (dots: usize)
    ensures
        dots == dot_count(text@),
{
    let n: usize = text.unicode_len();
    let mut dots: usize = 0;
    let mut i: usize = 0;
    while i < n
        invariant
            n == text@.len(),
            i <= n,
            dots <= i,
            dots == dot_count(text@.subrange(0, i as int)),
        decreases n - i,
    {
        let c: char = text.get_char(i);
        proof {
            let next = text@.subrange(0, i + 1);
            assert(next.drop_last() =~= text@.subrange(0, i as int));
            assert(next.last() == c);
        }
        if c == '.' {
            dots = dots + 1;
        }
        i = i + 1;
    }
    proof {
        assert(text@.subrange(0, n as int) =~= text@);
    }
    dots
}

/// Brings a version constraint into the form `major.minor.patch`: a leading
/// caret is dropped, one component gets `.0.0` appended, two get `.0`, and
/// three or more are left as they are. Nothing is checked to be a number.
pub fn normalize_version(version: &str) -> (out: String)
    ensures
        out@ == normalized(version@),
{
    let body: &str = strip_leading_caret(version);
    let dots: usize = count_dots(body);
    let out: String = String::from_str(body);
    if dots == 0 {
        out.concat(".0.0")
    } else if dots == 1 {
        out.concat(".0")
    } else {
        out
    }
}

/// The dots of a concatenation are those of its two halves.
pub proof fn lemma_dot_count_concat(a: Seq<char>, b: Seq<char>)
    ensures
        dot_count(a + b) == dot_count(a) + dot_count(b),
    decreases b.len(),
{
    if b.len() == 0 {
        assert(a + b =~= a);
    } else {
        lemma_dot_count_concat(a, b.drop_last());
        assert((a + b).drop_last() =~= a + b.drop_last());
        assert((a + b).last() == b.last());
    }
}

/// A single component holds no dot.
pub proof fn lemma_dot_free_count(s: Seq<char>)
    requires
        dot_free(s),
    ensures
        dot_count(s) == 0,
    decreases s.len(),
{
    if s.len() > 0 {
        lemma_dot_free_count(s.drop_last());
    }
}

/// A version of one component `n` normalizes to `n.0.0`, and one of two
/// components `n.m` to `n.m.0`. A leading caret on the input changes neither.
/// A component is any text without a dot; the first one does not itself
/// begin with a caret.
pub proof fn lemma_short_versions_are_filled(n: Seq<char>, m: Seq<char>)
    requires
        dot_free(n),
        dot_free(m),
        n.len() == 0 || n[0] != '^',
    ensures
        normalized(n) == n + ".0.0"@,
        normalized("^"@ + n) == n + ".0.0"@,
        normalized(n + "."@ + m) == n + "."@ + m + ".0"@,
        normalized("^"@ + n + "."@ + m) == n + "."@ + m + ".0"@,
{
    reveal_strlit("^");
    reveal_strlit(".");
    let two = n + "."@ + m;
    lemma_dot_free_count(n);
    lemma_dot_free_count(m);
    lemma_dot_count_concat(n, "."@);
    lemma_dot_count_concat(n + "."@, m);
    assert(dot_count("."@) == 1) by {
        assert("."@.drop_last() =~= Seq::<char>::empty());
        assert(dot_count("."@.drop_last()) == 0);
    }
    assert(strip_caret(n) == n);
    assert(strip_caret(two) == two) by {
        if n.len() == 0 {
            assert(two[0] == '.');
        } else {
            assert(two[0] == n[0]);
        }
    }
    assert(strip_caret("^"@ + n) =~= n);
    assert(strip_caret("^"@ + n + "."@ + m) =~= two);
}

/// A version of three or more components normalizes to itself without its
/// leading caret: here `a.b.rest`, whatever `rest` holds.
pub proof fn lemma_full_versions_pass_through(a: Seq<char>, b: Seq<char>, rest: Seq<char>)
    ensures
        zero_filled(a + "."@ + b + "."@ + rest) == a + "."@ + b + "."@ + rest,
        normalized(a + "."@ + b + "."@ + rest) == strip_caret(a + "."@ + b + "."@ + rest),
        normalized("^"@ + a + "."@ + b + "."@ + rest) == a + "."@ + b + "."@ + rest,
{
    reveal_strlit("^");
    reveal_strlit(".");
    let full = a + "."@ + b + "."@ + rest;
    assert(dot_count("."@) == 1) by {
        assert("."@.drop_last() =~= Seq::<char>::empty());
        assert(dot_count("."@.drop_last()) == 0);
    }
    lemma_dot_count_concat(a, "."@);
    lemma_dot_count_concat(a + "."@, b);
    lemma_dot_count_concat(a + "."@ + b, "."@);
    lemma_dot_count_concat(a + "."@ + b + "."@, rest);
    assert(dot_count(full) >= 2);
    lemma_strip_keeps_dots(full);
    assert(strip_caret("^"@ + a + "."@ + b + "."@ + rest) =~= full);
}

/// Dropping the caret drops no dot.
pub proof fn lemma_strip_keeps_dots(s: Seq<char>)
    ensures
        dot_count(strip_caret(s)) == dot_count(s),
{
    if s.len() > 0 && s[0] == '^' {
        let head = s.subrange(0, 1);
        assert(head + strip_caret(s) =~= s);
        lemma_dot_count_concat(head, strip_caret(s));
        assert(dot_count(head) == 0) by {
            assert(head.drop_last() =~= Seq::<char>::empty());
            assert(dot_count(head.drop_last()) == 0);
        }
    }
}

/// Dropping the caret beforehand changes nothing: the stripped text
/// normalizes to what the text with its caret normalizes to. It holds of every
/// input but those that begin with two carets, of which the second one is
/// kept.
pub proof fn lemma_caret_stripping_is_idempotent(s: Seq<char>)
    requires
        !doubly_prefixed(s),
    ensures
        strip_caret(strip_caret(s)) == strip_caret(s),
        normalized(strip_caret(s)) == normalized(s),
{
}

} // verus!
