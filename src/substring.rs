//! Substring containment on character sequences.
use vstd::prelude::*;

verus! {

/// `pattern` stands in `text` starting at character position `i`.
pub open spec fn occurs_at(text: Seq<char>, pattern: Seq<char>, i: int) -> bool {
    0 <= i && i + pattern.len() <= text.len() && text.subrange(i, i + pattern.len()) == pattern
}

/// `pattern` is a contiguous run of characters somewhere in `text`.
pub open spec fn is_substring(pattern: Seq<char>, text: Seq<char>) -> bool {
    exists|i: int| occurs_at(text, pattern, i)
}

/// Every text contains the empty pattern.
pub proof fn lemma_empty_is_substring(text: Seq<char>)
    ensures
        is_substring(Seq::empty(), text),
{
    assert(text.subrange(0, 0) =~= Seq::<char>::empty());
    assert(occurs_at(text, Seq::empty(), 0));
}

/// The characters of `s`, one element each, decoded in one pass.
fn chars_of(s: &str) -> (r: Vec<char>)
    ensures
        r@ == s@,
{
    let mut v: Vec<char> = Vec::new();
    for c in it: s.chars()
        invariant
            it.seq() == s@,
            v@ == it.seq().take(it.index() as int),
    {
        v.push(c);
    }
    assert(v@ =~= s@);
    v
}

/// Whether `p` stands in `t` at position `start`.
fn matches_at(t: &Vec<char>, p: &Vec<char>, start: usize) -> (r: bool)
    requires
        start + p.len() <= t.len(),
    ensures
        r == occurs_at(t@, p@, start as int),
{
    let mut j: usize = 0;
    while j < p.len()
        invariant
            start + p.len() <= t.len(),
            j <= p.len(),
            forall|k: int| 0 <= k < j ==> t@[start + k] == p@[k],
        decreases p.len() - j,
    {
        if t[start + j] != p[j] {
            assert(t@.subrange(start as int, start + p.len())[j as int] != p@[j as int]);
            return false;
        }
        j = j + 1;
    }
    assert(t@.subrange(start as int, start + p.len()) =~= p@);
    true
}

/// Whether `pattern` occurs in `text`; every text contains the empty pattern.
pub fn contains(text: &str, pattern: &str) -> (r: bool)
    ensures
        r == is_substring(pattern@, text@),
{
    let t = chars_of(text);
    let p = chars_of(pattern);
    if p.len() > t.len() {
        return false;
    }
    let last = t.len() - p.len();
    let mut i: usize = 0;
    loop
        invariant
            i <= last,
            last == t.len() - p.len(),
            t@ == text@,
            p@ == pattern@,
            forall|k: int| 0 <= k < i ==> !occurs_at(t@, p@, k),
        ensures
            forall|k: int| 0 <= k <= last ==> !occurs_at(t@, p@, k),
        decreases last - i,
    {
        if matches_at(&t, &p, i) {
            return true;
        }
        if i == last {
            break;
        }
        i = i + 1;
    }
    assert forall|k: int| !occurs_at(t@, p@, k) by {
        if 0 <= k <= last {
        }
    }
    false
}

} // verus!
