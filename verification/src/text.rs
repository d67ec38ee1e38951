//! Text helpers for the composing buffer: whitespace trimming and the
//! conversion of a character buffer into an owned string.

use vstd::prelude::*;

verus! {

/// Whether a character has the Unicode whitespace property, exactly as the
/// standard library's whitespace test decides it.
pub uninterp spec fn is_unicode_space(c: char) -> bool;

/// Relies on `char::is_whitespace`: whether `c` has the Unicode whitespace
/// property, a function of the character alone.
#[verifier::external_body]
pub(crate) fn char_is_space(c: char) -> (r: bool)
    ensures
        r == is_unicode_space(c),
{
    c.is_whitespace()
}

/// Relies on the standard library's `FromIterator` impl for `String`:
/// collecting characters yields the string of exactly those characters.
#[verifier::external_body]
pub(crate) fn chars_to_string(chars: &Vec<char>) -> (r: String)
    ensures
        r@ == chars@,
{
    chars.iter().collect()
}

/// `s` with its leading whitespace removed.
pub open spec fn trim_left(s: Seq<char>) -> Seq<char>
    decreases s.len(),
{
    if s.len() > 0 && is_unicode_space(s[0]) {
        trim_left(s.drop_first())
    } else {
        s
    }
}

/// `s` with its trailing whitespace removed.
pub open spec fn trim_right(s: Seq<char>) -> Seq<char>
    decreases s.len(),
{
    if s.len() > 0 && is_unicode_space(s.last()) {
        trim_right(s.drop_last())
    } else {
        s
    }
}

/// `s` with both leading and trailing whitespace removed.
pub open spec fn trim_spec(s: Seq<char>) -> Seq<char> {
    trim_right(trim_left(s))
}

proof fn lemma_trim_left_skips_spaces(s: Seq<char>, i: int)
    requires
        0 <= i <= s.len(),
        forall|j: int| 0 <= j < i ==> is_unicode_space(s[j]),
        i == s.len() || !is_unicode_space(s[i]),
    ensures
        trim_left(s) == s.skip(i),
    decreases i,
{
    if i == 0 {
        assert(trim_left(s) =~= s.skip(0));
    } else {
        let t = s.drop_first();
        assert(forall|j: int| 0 <= j < i - 1 ==> is_unicode_space(#[trigger] t[j]));
        lemma_trim_left_skips_spaces(t, i - 1);
        assert(t.skip(i - 1) =~= s.skip(i));
    }
}

proof fn lemma_trim_right_drops_spaces(s: Seq<char>, i: int)
    requires
        0 <= i <= s.len(),
        forall|j: int| i <= j < s.len() ==> is_unicode_space(s[j]),
        i == 0 || !is_unicode_space(s[i - 1]),
    ensures
        trim_right(s) == s.take(i),
    decreases s.len() - i,
{
    if i == s.len() {
        assert(trim_right(s) =~= s.take(i));
    } else {
        let t = s.drop_last();
        lemma_trim_right_drops_spaces(t, i);
        assert(t.take(i) =~= s.take(i));
    }
}

/// The buffer with leading and trailing whitespace removed, in a fresh
/// vector.
pub fn trimmed(chars: &Vec<char>) -> (r: Vec<char>)
    ensures
        r@ == trim_spec(chars@),
{
    let n = chars.len();
    let mut start: usize = 0;
    while start < n && char_is_space(chars[start])
        invariant
            n == chars@.len(),
            start <= n,
            forall|j: int| 0 <= j < start ==> is_unicode_space(chars@[j]),
        decreases n - start,
    {
        start += 1;
    }
    proof {
        lemma_trim_left_skips_spaces(chars@, start as int);
    }
    let mut end: usize = n;
    while end > start && char_is_space(chars[end - 1])
        invariant
            n == chars@.len(),
            start <= end <= n,
            forall|j: int| end <= j < n ==> is_unicode_space(chars@[j]),
        decreases end,
    {
        end -= 1;
    }
    proof {
        let u = chars@.skip(start as int);
        assert(forall|j: int| end - start <= j < u.len() ==> is_unicode_space(#[trigger] u[j]));
        lemma_trim_right_drops_spaces(u, end - start);
        assert(u.take(end - start) =~= chars@.subrange(start as int, end as int));
    }
    let mut out: Vec<char> = Vec::new();
    let mut k: usize = start;
    while k < end
        invariant
            start <= k <= end <= n,
            n == chars@.len(),
            out@ == chars@.subrange(start as int, k as int),
        decreases end - k,
    {
        out.push(chars[k]);
        proof {
            assert(out@ =~= chars@.subrange(start as int, k + 1 as int));
        }
        k += 1;
    }
    out
}

} // verus!
