//! Character-level helpers shared by the matching engine and the JSON
//! encoder: moving between `str`/`String` and `Vec<char>`, and a verified
//! prefix test.

use vstd::prelude::*;

verus! {

/// Relies on `str::chars` and `Iterator::collect`: the returned vector holds
/// exactly the characters of `s`, in order.
#[verifier::external_body]
pub(crate) fn chars_of(s: &str) -> (r: Vec<char>)
    ensures
        r@ == s@,
{
    s.chars().collect()
}

/// Relies on `String`'s `FromIterator<char>`: the returned string's
/// characters are exactly those of `v`, in order.
#[verifier::external_body]
pub(crate) fn string_from_chars(v: &Vec<char>) -> (r: String)
    ensures
        r@ == v@,
{
    v.iter().collect()
}

/// True iff `prefix` is a character-for-character prefix of `text`.
pub(crate) fn starts_with(text: &str, prefix: &str) -> (r: bool)
    ensures
        r == prefix@.is_prefix_of(text@),
{
    let t = chars_of(text);
    let p = chars_of(prefix);
    if p.len() > t.len() {
        return false;
    }
    let mut i: usize = 0;
    while i < p.len()
        invariant
            i <= p.len() <= t.len(),
            t@ == text@,
            p@ == prefix@,
            forall|j: int| 0 <= j < i ==> p@[j] == t@[j],
        decreases p.len() - i,
    {
        if p[i] != t[i] {
            assert(!prefix@.is_prefix_of(text@)) by {
                if prefix@.is_prefix_of(text@) {
                    assert(prefix@ =~= text@.subrange(0, prefix@.len() as int));
                    assert(prefix@[i as int] == text@[i as int]);
                }
            }
            return false;
        }
        i += 1;
    }
    assert(prefix@.is_prefix_of(text@)) by {
        assert(prefix@ =~= text@.subrange(0, prefix@.len() as int));
    }
    true
}

} // verus!
