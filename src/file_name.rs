//! The file name that a named loader is given, taken from the text of its
//! argument.
use vstd::prelude::*;

verus! {

/// `s` without the double quotes at its start.
pub open spec fn strip_leading_quotes(s: Seq<char>) -> Seq<char>
    decreases s.len(),
{
    if s.len() > 0 && s[0] == '"' {
        strip_leading_quotes(s.drop_first())
    } else {
        s
    }
}

/// `s` without the double quotes at its end.
pub open spec fn strip_trailing_quotes(s: Seq<char>) -> Seq<char>
    decreases s.len(),
{
    if s.len() > 0 && s.last() == '"' {
        strip_trailing_quotes(s.drop_last())
    } else {
        s
    }
}

/// `s` without the double quotes at either end: a quoted literal's text.
pub open spec fn trim_quotes(s: Seq<char>) -> Seq<char> {
    strip_trailing_quotes(strip_leading_quotes(s))
}

proof fn lemma_strip_leading_from(s: Seq<char>, i: int)
    requires
        0 <= i <= s.len(),
        forall|k: int| 0 <= k < i ==> s[k] == '"',
    ensures
        strip_leading_quotes(s) == strip_leading_quotes(s.subrange(i, s.len() as int)),
    decreases i,
{
    if i > 0 {
        assert(s.drop_first().subrange(i - 1, s.drop_first().len() as int) =~= s.subrange(
            i,
            s.len() as int,
        ));
        lemma_strip_leading_from(s.drop_first(), i - 1);
    } else {
        assert(s.subrange(0, s.len() as int) =~= s);
    }
}

proof fn lemma_strip_trailing_to(s: Seq<char>, j: int)
    requires
        0 <= j <= s.len(),
        forall|k: int| j <= k < s.len() ==> s[k] == '"',
    ensures
        strip_trailing_quotes(s) == strip_trailing_quotes(s.subrange(0, j)),
    decreases s.len() - j,
{
    if j < s.len() {
        assert(s.drop_last().subrange(0, j) =~= s.subrange(0, j));
        lemma_strip_trailing_to(s.drop_last(), j);
    } else {
        assert(s.subrange(0, s.len() as int) =~= s);
    }
}

/// The file name written as the argument of a named loader: the argument's
/// text with the double quotes at both ends taken off, so that a string
/// literal `".env.test"` names the file `.env.test`.
pub fn file_name_from_input(input: &str) -> (r: String)
    ensures
        r@ == trim_quotes(input@),
{
    let n = input.unicode_len();
    let mut i: usize = 0;
    while i < n && input.get_char(i) == '"'
        invariant
            n == input@.len(),
            i <= n,
            forall|k: int| 0 <= k < i ==> input@[k] == '"',
        decreases n - i,
    {
        i = i + 1;
    }
    let mut j: usize = n;
    while j > i && input.get_char(j - 1) == '"'
        invariant
            n == input@.len(),
            i <= j <= n,
            forall|k: int| j <= k < n ==> input@[k] == '"',
        decreases j,
    {
        j = j - 1;
    }
    proof {
        let s = input@;
        let rest = s.subrange(i as int, n as int);
        lemma_strip_leading_from(s, i as int);
        assert(strip_leading_quotes(rest) == rest);
        assert forall|k: int| (j - i) as int <= k < rest.len() implies rest[k] == '"' by {
            assert(rest[k] == s[k + i]);
        }
        lemma_strip_trailing_to(rest, (j - i) as int);
        let kept = rest.subrange(0, (j - i) as int);
        assert(kept =~= s.subrange(i as int, j as int));
        assert(strip_trailing_quotes(kept) == kept);
    }
    input.substring_char(i, j).to_string()
}

} // verus!
