use vstd::prelude::*;
use vstd::string::StrSliceExecFns;

verus! {

/// Whether the character counts as whitespace: what `char::is_whitespace`
/// answers for it.
pub uninterp spec fn char_is_whitespace(c: char) -> bool;

/// Relies on `char::is_whitespace`: whether the character has the Unicode
/// `White_Space` property, a function of the character alone.
#[verifier::external_body]
fn is_whitespace_char(c: char) -> (r: bool)
    ensures
        r == char_is_whitespace(c),
{
    c.is_whitespace()
}

/// The number of leading whitespace characters of `s`.
pub open spec fn leading_ws(s: Seq<char>) -> int
    decreases s.len(),
{
    if s.len() > 0 && char_is_whitespace(s[0]) {
        1 + leading_ws(s.subrange(1, s.len() as int))
    } else {
        0
    }
}

/// The length of `s` once its trailing whitespace is removed.
pub open spec fn trimmed_end(s: Seq<char>) -> int
    decreases s.len(),
{
    if s.len() > 0 && char_is_whitespace(s[s.len() - 1]) {
        trimmed_end(s.subrange(0, s.len() - 1))
    } else {
        s.len() as int
    }
}

/// `s` with leading and trailing whitespace removed; empty when `s` holds
/// nothing but whitespace.
pub open spec fn trim_spec(s: Seq<char>) -> Seq<char> {
    if leading_ws(s) <= trimmed_end(s) {
        s.subrange(leading_ws(s), trimmed_end(s))
    } else {
        Seq::empty()
    }
}

/// `leading_ws` names the first index that does not hold whitespace (or the
/// length, when every index does).
pub proof fn lemma_leading_ws(s: Seq<char>)
    ensures
        0 <= leading_ws(s) <= s.len(),
        forall|j: int| 0 <= j < leading_ws(s) ==> char_is_whitespace(s[j]),
        leading_ws(s) < s.len() ==> !char_is_whitespace(s[leading_ws(s)]),
    decreases s.len(),
{
    if s.len() > 0 && char_is_whitespace(s[0]) {
        let t = s.subrange(1, s.len() as int);
        lemma_leading_ws(t);
        assert forall|j: int| 0 <= j < leading_ws(s) implies char_is_whitespace(s[j]) by {
            if j > 0 {
                assert(t[j - 1] == s[j]);
            }
        }
        if leading_ws(s) < s.len() {
            assert(t[leading_ws(s) - 1] == s[leading_ws(s)]);
        }
    }
}

/// `trimmed_end` names the index after the last one that does not hold
/// whitespace (or zero, when every index holds whitespace).
pub proof fn lemma_trimmed_end(s: Seq<char>)
    ensures
        0 <= trimmed_end(s) <= s.len(),
        forall|j: int| trimmed_end(s) <= j < s.len() ==> char_is_whitespace(s[j]),
        trimmed_end(s) > 0 ==> !char_is_whitespace(s[trimmed_end(s) - 1]),
    decreases s.len(),
{
    if s.len() > 0 && char_is_whitespace(s[s.len() - 1]) {
        let t = s.subrange(0, s.len() - 1);
        lemma_trimmed_end(t);
        assert forall|j: int| trimmed_end(s) <= j < s.len() implies char_is_whitespace(s[j]) by {
            if j < s.len() - 1 {
                assert(t[j] == s[j]);
            }
        }
        if trimmed_end(s) > 0 {
            assert(t[trimmed_end(s) - 1] == s[trimmed_end(s) - 1]);
        }
    }
}

/// A text of nothing but whitespace trims to the empty text.
pub proof fn lemma_whitespace_only_trims_empty(s: Seq<char>)
    requires
        forall|i: int| 0 <= i < s.len() ==> char_is_whitespace(s[i]),
    ensures
        trim_spec(s).len() == 0,
{
    lemma_leading_ws(s);
    lemma_trimmed_end(s);
    if leading_ws(s) < s.len() {
        assert(char_is_whitespace(s[leading_ws(s)]));
    }
    if trimmed_end(s) > 0 {
        assert(char_is_whitespace(s[trimmed_end(s) - 1]));
    }
}

/// `s` with leading and trailing whitespace removed, as `trim_spec` states
/// it.
pub fn trim_text(s: &str) -> (r: String)
    ensures
        r@ == trim_spec(s@),
{
    let n = s.unicode_len();
    let mut i: usize = 0;
    loop
        invariant
            n == s@.len(),
            0 <= i <= n,
            forall|j: int| 0 <= j < i ==> char_is_whitespace(s@[j]),
        ensures
            0 <= i <= n,
            forall|j: int| 0 <= j < i ==> char_is_whitespace(s@[j]),
            i == n || !char_is_whitespace(s@[i as int]),
        decreases n - i,
    {
        if i == n {
            break;
        }
        if !is_whitespace_char(s.get_char(i)) {
            break;
        }
        i = i + 1;
    }
    let mut j: usize = n;
    loop
        invariant
            n == s@.len(),
            0 <= i <= j <= n,
            i == n || !char_is_whitespace(s@[i as int]),
            forall|k: int| j <= k < n ==> char_is_whitespace(s@[k]),
        ensures
            i <= j <= n,
            forall|k: int| j <= k < n ==> char_is_whitespace(s@[k]),
            j == i || !char_is_whitespace(s@[j - 1]),
        decreases j,
    {
        if j == i {
            break;
        }
        if !is_whitespace_char(s.get_char(j - 1)) {
            break;
        }
        j = j - 1;
    }
    proof {
        lemma_leading_ws(s@);
        lemma_trimmed_end(s@);
        if i == j {
            // everything before i and everything from j on is whitespace,
            // so the whole text is; both trim marks collapse.
            assert forall|k: int| 0 <= k < s@.len() implies char_is_whitespace(s@[k]) by {}
            lemma_whitespace_only_trims_empty(s@);
        } else {
            // the scans stopped on non-whitespace characters at i and j - 1,
            // which pins both trim marks.
            assert(!char_is_whitespace(s@[i as int]));
            assert(!char_is_whitespace(s@[j - 1]));
            assert(leading_ws(s@) == i);
            assert(trimmed_end(s@) == j);
        }
    }
    let t = s.substring_char(i, j);
    let r = t.to_owned();
    proof {
        assert(r@ =~= trim_spec(s@));
    }
    r
}

} // verus!
