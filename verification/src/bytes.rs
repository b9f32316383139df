//! Verified byte-string utilities: equality, prefix matching at a position,
//! and substring containment.

use vstd::prelude::*;

verus! {

/// True iff `needle` occurs in `hay` starting at index `i`.
pub open spec fn matches_at(hay: Seq<u8>, needle: Seq<u8>, i: int) -> bool {
    0 <= i && i + needle.len() <= hay.len() && hay.subrange(i, i + needle.len()) == needle
}

/// Byte-slice equality, decided element by element.
pub fn bytes_eq(a: &[u8], b: &[u8]) -> (r: bool)
    ensures
        r == (a@ == b@),
{
    if a.len() != b.len() {
        assert(a@ != b@);
        return false;
    }
    let mut j: usize = 0;
    while j < a.len()
        invariant
            j <= a.len(),
            a@.len() == b@.len(),
            forall|k: int| 0 <= k < j ==> a@[k] == b@[k],
        decreases a.len() - j,
    {
        if a[j] != b[j] {
            return false;
        }
        j = j + 1;
    }
    assert(a@ =~= b@);
    true
}

/// True iff `needle` occurs in `hay` starting at index `i`.
pub fn matches_at_exec(hay: &[u8], needle: &[u8], i: usize) -> (r: bool)
    requires
        i + needle@.len() <= hay@.len(),
    ensures
        r == matches_at(hay@, needle@, i as int),
{
    let hay_len = hay.len();
    let mut j: usize = 0;
    while j < needle.len()
        invariant
            j <= needle@.len(),
            i + needle@.len() <= hay@.len(),
            hay@.len() == hay_len,
            forall|k: int| 0 <= k < j ==> hay@[i + k] == needle@[k],
        decreases needle.len() - j,
    {
        if hay[i + j] != needle[j] {
            assert(hay@.subrange(i as int, i + needle@.len())[j as int] != needle@[j as int]);
            return false;
        }
        j = j + 1;
    }
    assert(hay@.subrange(i as int, i + needle@.len()) =~= needle@);
    true
}

/// A substring of `a` is a substring of `a + b`.
pub proof fn lemma_contains_extends_right(a: Seq<u8>, b: Seq<u8>, n: Seq<u8>)
    requires
        crate::contains_seq(a, n),
    ensures
        crate::contains_seq(a + b, n),
{
    let i = choose|i: int| matches_at(a, n, i);
    assert((a + b).subrange(i, i + n.len()) =~= a.subrange(i, i + n.len()));
    assert(matches_at(a + b, n, i));
}

/// A substring of `b` is a substring of `a + b`.
pub proof fn lemma_contains_extends_left(a: Seq<u8>, b: Seq<u8>, n: Seq<u8>)
    requires
        crate::contains_seq(b, n),
    ensures
        crate::contains_seq(a + b, n),
{
    let i = choose|i: int| matches_at(b, n, i);
    assert((a + b).subrange(a.len() + i, a.len() + i + n.len()) =~= b.subrange(i, i + n.len()));
    assert(matches_at(a + b, n, a.len() + i));
}

/// Substring containment of `needle` in `hay`.
pub fn contains_bytes(hay: &[u8], needle: &[u8]) -> (r: bool)
    ensures
        r == crate::contains_seq(hay@, needle@),
{
    if needle.len() == 0 {
        assert(hay@.subrange(0, 0) =~= needle@);
        assert(matches_at(hay@, needle@, 0));
        return true;
    }
    if needle.len() > hay.len() {
        return false;
    }
    let hay_len = hay.len();
    let last: usize = hay_len - needle.len();
    let mut i: usize = 0;
    while i <= last
        invariant
            1 <= needle@.len(),
            needle@.len() <= hay@.len(),
            hay@.len() == hay_len,
            last == hay@.len() - needle@.len(),
            i <= last + 1,
            forall|k: int| 0 <= k < i ==> !matches_at(hay@, needle@, k),
        decreases last + 1 - i,
    {
        if matches_at_exec(hay, needle, i) {
            return true;
        }
        i = i + 1;
    }
    false
}

} // verus!
