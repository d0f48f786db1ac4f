use vstd::prelude::*;

verus! {

/// Relies on `str::chars` (collected into a `Vec`): yields the characters of
/// the string in order.
#[verifier::external_body]
pub(crate) fn chars_of(s: &str) -> (r: Vec<char>)
    ensures
        r@ == s@,
{
    s.chars().collect()
}

/// Relies on `String`'s `FromIterator<&char>`: the string holds the given
/// characters in order.
#[verifier::external_body]
pub(crate) fn string_of(v: &[char]) -> (r: String)
    ensures
        r@ == v@,
{
    v.iter().collect()
}

/// Whether the characters `v[from..to]` are exactly those of `w`.
pub(crate) fn matches_at(v: &Vec<char>, from: usize, to: usize, w: &str) -> (r: bool)
    requires
        from <= to <= v.len(),
    ensures
        r == (v@.subrange(from as int, to as int) == w@),
{
    let wc = chars_of(w);
    if wc.len() != to - from {
        return false;
    }
    let mut i: usize = 0;
    while i < wc.len()
        invariant
            wc@ == w@,
            wc.len() == to - from,
            from <= to <= v.len(),
            i <= wc.len(),
            forall|j: int| 0 <= j < i ==> v@[from + j] == wc@[j],
        decreases wc.len() - i,
    {
        if v[from + i] != wc[i] {
            assert(v@.subrange(from as int, to as int)[i as int] != w@[i as int]);
            return false;
        }
        i = i + 1;
    }
    assert(v@.subrange(from as int, to as int) =~= w@);
    true
}

} // verus!
