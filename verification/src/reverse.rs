//! Reversing a text value, read as a sequence of Unicode scalar values.

use vstd::prelude::*;

verus! {

/// The characters of `s`, collected into a vector.
pub fn chars_of(s: &str) -> (v: Vec<char>)
    ensures
        v@ == s@,
{
    let mut v: Vec<char> = Vec::new();
    for c in it: s.chars()
        invariant
            v@ == it.seq().take(it.index()),
    {
        v.push(c);
    }
    proof {
        assert(v@ =~= s@);
    }
    v
}

/// The elements of `v` in the opposite order.
pub fn reverse_chars(v: &Vec<char>) -> (r: Vec<char>)
    ensures
        r@ == v@.reverse(),
{
    let n = v.len();
    let mut r: Vec<char> = Vec::new();
    for i in 0..n
        invariant
            n == v@.len(),
            r@.len() == i,
            forall|j: int| 0 <= j < i ==> r@[j] == v@[n - 1 - j],
    {
        r.push(v[n - 1 - i]);
    }
    proof {
        assert(r@ =~= v@.reverse());
    }
    r
}

/// Relies on `String`'s `FromIterator` over characters: collecting yields a
/// string holding exactly the given characters, in order.
#[verifier::external_body]
fn string_from_chars(v: &Vec<char>) -> (s: String)
    ensures
        s@ == v@,
{
    v.iter().collect()
}

/// The character-reversed form of `s`: `s` read right to left by Unicode
/// scalar value.
pub fn reverse_string(s: &str) -> (r: String)
    ensures
        r@ == s@.reverse(),
{
    let chars = chars_of(s);
    let rev = reverse_chars(&chars);
    string_from_chars(&rev)
}

/// What the registered call hands back to the host: the reversed text to push
/// as the one result, and the count of produced result values, which is
/// always one.
pub fn reverse_results(s: &str) -> (r: (String, i32))
    ensures
        r.0@ == s@.reverse(),
        r.1 == 1,
{
    (reverse_string(s), 1)
}

/// Law: reversing is an involution — reversing twice yields the original
/// sequence.
pub proof fn lemma_reverse_involution(s: Seq<char>)
    ensures
        s.reverse().reverse() == s,
{
    assert(s.reverse().reverse() =~= s);
}

/// Law: a sequence of a single character is its own reverse.
pub proof fn lemma_reverse_singleton(s: Seq<char>)
    requires
        s.len() == 1,
    ensures
        s.reverse() == s,
{
    assert(s.reverse() =~= s);
}

} // verus!
