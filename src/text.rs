//! Literal matching over the characters of a text.
use vstd::prelude::*;
use vstd::std_specs::iter::IteratorSpec;

verus! {

broadcast use {vstd::string::axiom_spec_iter, vstd::string::next_postcondition};

/// `p` is a prefix of `s`.
pub open spec fn is_prefix_of(p: Seq<char>, s: Seq<char>) -> bool {
    p.len() <= s.len() && s.subrange(0, p.len() as int) == p
}

/// `p` occurs in `s` as a contiguous run starting at position `i`.
pub open spec fn occurs_at(p: Seq<char>, s: Seq<char>, i: int) -> bool {
    0 <= i && i + p.len() <= s.len() && s.subrange(i, i + p.len()) == p
}

/// `p` is a substring of `s`.
pub open spec fn occurs_in(p: Seq<char>, s: Seq<char>) -> bool {
    exists|i: int| occurs_at(p, s, i)
}

/// The characters of `s`, one element each.
pub fn chars_of(s: &str) -> (r: Vec<char>)
    ensures
        r@ == s@,
{
    let mut r: Vec<char> = Vec::new();
    for c in it: s.chars()
        invariant
            it.seq() == s@,
            r@ == it.seq().take(it.index() as int),
    {
        r.push(c);
    }
    assert(r@ =~= s@);
    r
}

/// Whether `p` occurs in `s` at position `at`.
fn matches_at(p: &Vec<char>, s: &Vec<char>, at: usize) -> (r: bool)
    requires
        at <= s@.len(),
    ensures
        r == occurs_at(p@, s@, at as int),
{
    let n: usize = s.len();
    if p.len() > n - at {
        return false;
    }
    let mut k: usize = 0;
    while k < p.len()
        invariant
            k <= p@.len(),
            at + p@.len() <= s@.len(),
            n == s@.len(),
            forall|j: int| 0 <= j < k ==> s@[at + j] == p@[j],
        decreases p@.len() - k,
    {
        if s[at + k] != p[k] {
            assert(s@.subrange(at as int, at + p@.len())[k as int] != p@[k as int]);
            return false;
        }
        k = k + 1;
    }
    assert(s@.subrange(at as int, at + p@.len()) =~= p@);
    true
}

/// Whether the text `s` begins with `p`, compared character by character.
pub fn starts_with_chars(p: &Vec<char>, s: &Vec<char>) -> (r: bool)
    ensures
        r == is_prefix_of(p@, s@),
{
    matches_at(p, s, 0)
}

/// Whether `p` occurs anywhere in `s`, compared character by character.
pub fn occurs_in_chars(p: &Vec<char>, s: &Vec<char>) -> (r: bool)
    ensures
        r == occurs_in(p@, s@),
{
    if p.len() > s.len() {
        assert forall|i: int| !occurs_at(p@, s@, i) by {}
        return false;
    }
    let last: usize = s.len() - p.len();
    let mut at: usize = 0;
    while at < last
        invariant
            last == s@.len() - p@.len(),
            at <= last,
            forall|i: int| 0 <= i < at ==> !occurs_at(p@, s@, i),
        decreases last - at,
    {
        if matches_at(p, s, at) {
            return true;
        }
        at = at + 1;
    }
    if matches_at(p, s, last) {
        return true;
    }
    assert forall|i: int| !occurs_at(p@, s@, i) by {
        if 0 <= i < last {
        }
    }
    false
}

/// Whether two character sequences are equal.
pub fn same_chars(a: &Vec<char>, b: &Vec<char>) -> (r: bool)
    ensures
        r == (a@ == b@),
{
    if a.len() != b.len() {
        return false;
    }
    let r = starts_with_chars(a, b);
    assert(b@.subrange(0, a@.len() as int) =~= b@);
    r
}

} // verus!
