//! Conversions between Rust strings and the character vectors the engine
//! works on.

use vstd::prelude::*;
use vstd::std_specs::iter::IteratorSpec;

verus! {

/// `String::push` appends one character to the end of the string.
pub assume_specification[ String::push ](s: &mut String, ch: char)
    ensures
        final(s)@ == old(s)@.push(ch),
;

/// The number of characters that `s` has before its first `sep`, or its
/// length where it has none.
pub open spec fn until(s: Seq<char>, sep: char) -> nat
    decreases s.len(),
{
    if s.len() == 0 || s[0] == sep {
        0
    } else {
        1 + until(s.skip(1), sep)
    }
}

/// `until` is the first place that holds `sep`, or the length.
pub proof fn lemma_until(s: Seq<char>, sep: char, k: int)
    requires
        0 <= k <= s.len(),
        forall|j: int| 0 <= j < k ==> s[j] != sep,
        k == s.len() || s[k] == sep,
    ensures
        until(s, sep) == k,
    decreases k,
{
    if k > 0 {
        let t = s.skip(1);
        assert forall|j: int| 0 <= j < k - 1 implies t[j] != sep by {
            assert(t[j] == s[j + 1]);
        }
        lemma_until(t, sep, k - 1);
    }
}

/// What `until` finds: no `sep` stands before it, and `sep` stands at it
/// unless it is the length.
pub proof fn lemma_until_found(s: Seq<char>, sep: char)
    ensures
        until(s, sep) <= s.len(),
        forall|j: int| 0 <= j < until(s, sep) ==> s[j] != sep,
        until(s, sep) < s.len() ==> s[until(s, sep) as int] == sep,
    decreases s.len(),
{
    if s.len() > 0 && s[0] != sep {
        let t = s.skip(1);
        lemma_until_found(t, sep);
        assert forall|j: int| 0 <= j < until(s, sep) implies s[j] != sep by {
            if j > 0 {
                assert(s[j] == t[j - 1]);
            }
        }
        if until(s, sep) < s.len() {
            assert(s[until(s, sep) as int] == t[until(t, sep) as int]);
        }
    }
}

/// The place in `s`, at or after `from`, of the first `sep`, or the length
/// of `s` where none follows.
pub fn find_from(s: &[char], sep: char, from: usize) -> (at: usize)
    requires
        from <= s.len(),
    ensures
        from <= at <= s.len(),
        at - from == until(s@.skip(from as int), sep),
{
    let mut at: usize = from;
    while at < s.len() && s[at] != sep
        invariant
            from <= at <= s.len(),
            forall|k: int| from <= k < at ==> s@[k] != sep,
        decreases s.len() - at,
    {
        at += 1;
    }
    proof {
        lemma_until(s@.skip(from as int), sep, at - from);
    }
    at
}

/// The characters of `s` from `from` up to `to`.
pub fn slice_of(s: &[char], from: usize, to: usize) -> (out: Vec<char>)
    requires
        from <= to <= s.len(),
    ensures
        out@ == s@.subrange(from as int, to as int),
{
    let mut out: Vec<char> = Vec::new();
    let mut i: usize = from;
    while i < to
        invariant
            from <= i <= to <= s.len(),
            out@ == s@.subrange(from as int, i as int),
        decreases to - i,
    {
        out.push(s[i]);
        i += 1;
        assert(s@.subrange(from as int, i as int) == s@.subrange(from as int, i - 1).push(
            s@[i - 1],
        ));
    }
    out
}

/// The characters of `s`, in order.
pub fn to_chars(s: &str) -> (out: Vec<char>)
    ensures
        out@ == s@,
{
    let mut out: Vec<char> = Vec::new();
    let chars_it = s.chars();
    for c in it: chars_it
        invariant
            it.seq() == s@,
            out@ == s@.take(it.index() as int),
    {
        out.push(c);
        assert(s@.take(it.index() + 1) == s@.take(it.index() as int).push(c));
    }
    assert(s@.take(s@.len() as int) == s@);
    out
}

/// The string made of the characters of `chars`, in order.
pub fn from_chars(chars: &[char]) -> (out: String)
    ensures
        out@ == chars@,
{
    let mut out = String::new();
    let mut i: usize = 0;
    while i < chars.len()
        invariant
            i <= chars.len(),
            out@ == chars@.take(i as int),
        decreases chars.len() - i,
    {
        out.push(chars[i]);
        i += 1;
        assert(chars@.take(i as int) == chars@.take(i - 1).push(chars@[i - 1]));
    }
    assert(chars@.take(chars.len() as int) == chars@);
    out
}

} // verus!
