use vstd::prelude::*;

verus! {

/// The Unicode White_Space property of one character. The property is a
/// table in the Unicode character database and is not restated here; it is a
/// function of the character alone.
pub uninterp spec fn whitespace_char(c: char) -> bool;

/// Relies on char::is_whitespace: true exactly for characters with the
/// Unicode White_Space property, a function of the character alone.
#[verifier::external_body]
pub(crate) fn is_whitespace_char(c: char) -> (r: bool)
    ensures
        r == whitespace_char(c),
{
    c.is_whitespace()
}

/// `s` without its leading whitespace characters.
pub open spec fn drop_leading_ws(s: Seq<char>) -> Seq<char>
    decreases s.len(),
{
    if s.len() > 0 && whitespace_char(s.first()) {
        drop_leading_ws(s.drop_first())
    } else {
        s
    }
}

/// `s` without its trailing whitespace characters.
pub open spec fn drop_trailing_ws(s: Seq<char>) -> Seq<char>
    decreases s.len(),
{
    if s.len() > 0 && whitespace_char(s.last()) {
        drop_trailing_ws(s.drop_last())
    } else {
        s
    }
}

/// `s` without leading and trailing whitespace, as `str::trim` leaves it.
pub open spec fn trim_ws(s: Seq<char>) -> Seq<char> {
    drop_trailing_ws(drop_leading_ws(s))
}

/// When the first `i` characters are whitespace and the character at `i`, if
/// any, is not, dropping leading whitespace is dropping exactly those `i`.
pub proof fn lemma_drop_leading_ws_subrange(s: Seq<char>, i: int)
    requires
        0 <= i <= s.len(),
        forall|k: int| 0 <= k < i ==> whitespace_char(s[k]),
        i == s.len() || !whitespace_char(s[i]),
    ensures
        drop_leading_ws(s) == s.subrange(i, s.len() as int),
    decreases i,
{
    if i == 0 {
        assert(s.subrange(0, s.len() as int) =~= s);
    } else {
        let rest = s.drop_first();
        lemma_drop_leading_ws_subrange(rest, i - 1);
        assert(rest.subrange(i - 1, rest.len() as int) =~= s.subrange(i, s.len() as int));
    }
}

/// When the characters from `j` on are whitespace and the character before
/// `j`, if any, is not, dropping trailing whitespace keeps exactly the first
/// `j`.
pub proof fn lemma_drop_trailing_ws_subrange(s: Seq<char>, j: int)
    requires
        0 <= j <= s.len(),
        forall|k: int| j <= k < s.len() ==> whitespace_char(s[k]),
        j == 0 || !whitespace_char(s[j - 1]),
    ensures
        drop_trailing_ws(s) == s.subrange(0, j),
    decreases s.len() - j,
{
    if j == s.len() {
        assert(s.subrange(0, s.len() as int) =~= s);
    } else {
        let rest = s.drop_last();
        lemma_drop_trailing_ws_subrange(rest, j);
        assert(rest.subrange(0, j) =~= s.subrange(0, j));
    }
}

/// A sequence with no leading and no trailing whitespace is its own trim.
pub proof fn lemma_trim_ws_no_surrounding_ws(s: Seq<char>)
    requires
        s.len() == 0 || (!whitespace_char(s.first()) && !whitespace_char(s.last())),
    ensures
        trim_ws(s) == s,
{
    lemma_drop_leading_ws_subrange(s, 0);
    assert(s.subrange(0, s.len() as int) =~= s);
    lemma_drop_trailing_ws_subrange(s, s.len() as int);
}

} // verus!
