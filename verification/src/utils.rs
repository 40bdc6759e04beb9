use vstd::prelude::*;

verus! {

/// Whether `c` is one of the two quote characters a value may be wrapped in.
pub open spec fn is_quote(c: char) -> bool {
    c == '"' || c == '\''
}

/// `s` with one pair of matching surrounding quotes removed, if it has one.
pub open spec fn unquoted(s: Seq<char>) -> Seq<char> {
    if s.len() >= 2 && is_quote(s[0]) && s[s.len() - 1] == s[0] {
        s.subrange(1, s.len() - 1)
    } else {
        s
    }
}

/// Wrapping a text in a pair of quotes and unquoting it gives the text back.
pub proof fn lemma_unquote_quoted(q: char, s: Seq<char>)
    requires
        is_quote(q),
    ensures
        unquoted(seq![q] + s + seq![q]) == s,
{
    let w = seq![q] + s + seq![q];
    assert(w[0] == q);
    assert(w[w.len() - 1] == q);
    assert(w.subrange(1, w.len() - 1) =~= s);
}

/// A text that is not wrapped in a matching pair of `'` or `"` is left as it
/// is: texts shorter than two, texts whose first character is neither quote,
/// and texts whose last character differs from their first.
pub proof fn lemma_unquote_keeps_bare_text(s: Seq<char>)
    requires
        s.len() < 2 || (s[0] != '"' && s[0] != '\'') || s[s.len() - 1] != s[0],
    ensures
        unquoted(s) == s,
{
}

/// A text wrapped in `'..'` or `".."` loses exactly its first and last
/// character, and nothing else.
pub proof fn lemma_unquote_strips_only_the_pair(s: Seq<char>)
    requires
        s.len() >= 2,
        s[0] == '"' || s[0] == '\'',
        s[s.len() - 1] == s[0],
    ensures
        unquoted(s).len() == s.len() - 2,
        forall|i: int| 0 <= i < s.len() - 2 ==> #[trigger] unquoted(s)[i] == s[i + 1],
{
}

/// Removes one pair of matching quotes (`'..'` or `".."`) around `s`;
/// anything else is returned as it is.
pub fn unquote(s: &str) -> (r: &str)
    ensures
        r@ == unquoted(s@),
        s@.len() < 2 || (s@[0] != '"' && s@[0] != '\'') || s@[s@.len() - 1] != s@[0] ==> r@
            == s@,
        s@.len() >= 2 && (s@[0] == '"' || s@[0] == '\'') && s@[s@.len() - 1] == s@[0] ==> r@
            == s@.subrange(1, s@.len() - 1),
{
    let n = s.unicode_len();
    if n >= 2 {
        let first = s.get_char(0);
        let last = s.get_char(n - 1);
        if (first == '"' || first == '\'') && last == first {
            return s.substring_char(1, n - 1);
        }
    }
    s
}

/// Whether `a` and `b` hold the same characters.
pub fn str_equals(a: &str, b: &str) -> (r: bool)
    ensures
        r == (a@ == b@),
{
    let n = a.unicode_len();
    if n != b.unicode_len() {
        return false;
    }
    let mut i: usize = 0;
    while i < n
        invariant
            n == a@.len(),
            n == b@.len(),
            i <= n,
            forall|j: int| 0 <= j < i ==> a@[j] == b@[j],
        decreases n - i,
    {
        if a.get_char(i) != b.get_char(i) {
            return false;
        }
        i = i + 1;
    }
    assert(a@ =~= b@);
    true
}

/// ASCII lower case of one character: `A`..`Z` become `a`..`z`, all else stays.
pub open spec fn ascii_lower_char(c: char) -> char {
    if 'A' <= c <= 'Z' {
        ((c as u32) + 32) as char
    } else {
        c
    }
}

/// ASCII lower case of every character of `s`.
pub open spec fn ascii_lower(s: Seq<char>) -> Seq<char> {
    s.map_values(|c: char| ascii_lower_char(c))
}

/// Unquoting keeps two texts that agree up to ASCII letter case in agreement:
/// quote characters are no letters, so both are unquoted alike.
pub proof fn lemma_unquote_ascii_lower(v1: Seq<char>, v2: Seq<char>)
    requires
        ascii_lower(v1) == ascii_lower(v2),
    ensures
        ascii_lower(unquoted(v1)) == ascii_lower(unquoted(v2)),
{
    assert(v1.len() == ascii_lower(v1).len());
    assert(v2.len() == ascii_lower(v2).len());
    if v1.len() >= 2 {
        let n = v1.len();
        assert(ascii_lower(v1)[0] == ascii_lower_char(v1[0]));
        assert(ascii_lower(v2)[0] == ascii_lower_char(v2[0]));
        assert(ascii_lower(v1)[n - 1] == ascii_lower_char(v1[n - 1]));
        assert(ascii_lower(v2)[n - 1] == ascii_lower_char(v2[n - 1]));
        assert(is_quote(v1[0]) ==> v2[0] == v1[0]);
        assert(is_quote(v2[0]) ==> v2[0] == v1[0]);
        assert(is_quote(v1[0]) && v1[n - 1] == v1[0] ==> v2[n - 1] == v1[n - 1]);
        assert(is_quote(v2[0]) && v2[n - 1] == v2[0] ==> v2[n - 1] == v1[n - 1]);
        assert(ascii_lower(v1.subrange(1, n - 1)) =~= ascii_lower(v2.subrange(1, n - 1))) by {
            assert forall|i: int| 0 <= i < n - 2 implies #[trigger] ascii_lower(v1.subrange(1, n - 1))[i]
                == ascii_lower(v2.subrange(1, n - 1))[i] by {
                assert(ascii_lower(v1)[i + 1] == ascii_lower(v2)[i + 1]);
                assert(ascii_lower(v1)[i + 1] == ascii_lower_char(v1[i + 1]));
                assert(ascii_lower(v2)[i + 1] == ascii_lower_char(v2[i + 1]));
                assert(v1.subrange(1, n - 1)[i] == v1[i + 1]);
                assert(v2.subrange(1, n - 1)[i] == v2[i + 1]);
            }
        }
    }
}

/// The result of `str::to_lowercase`, taken by the characters of its argument.
pub uninterp spec fn unicode_lowercase(s: Seq<char>) -> Seq<char>;

/// Calls `str::to_lowercase`.
///
/// Trusted: the result is the named lower-case mapping of the argument,
/// which Unicode's tables define and which is not written out here. For an
/// all-ASCII argument it is stated to be the ASCII lower case, as std's
/// documentation of `to_ascii_lowercase` and `to_lowercase` says (the latter
/// lower-cases ASCII characters in addition to non-ASCII ones).
#[verifier::external_body]
pub(crate) fn to_lowercase(s: &str) -> (r: String)
    ensures
        r@ == unicode_lowercase(s@),
        vstd::utf8::is_ascii_chars(s@) ==> r@ == ascii_lower(s@),
{
    s.to_lowercase()
}

} // verus!
