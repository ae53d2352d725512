//! Byte-level helpers shared by the extension table and the signature sniffer.
use vstd::prelude::*;

verus! {

/// ASCII lower-casing of one byte; every other byte is left as it is.
pub open spec fn ascii_lower(b: u8) -> u8 {
    if 0x41 <= b && b <= 0x5a {
        (b + 0x20) as u8
    } else {
        b
    }
}

/// ASCII lower-casing of a byte string.
pub open spec fn lower(s: Seq<u8>) -> Seq<u8> {
    Seq::new(s.len(), |i: int| ascii_lower(s[i]))
}

/// `prefix` is an initial segment of `s`.
pub open spec fn has_prefix(s: Seq<u8>, prefix: Seq<u8>) -> bool {
    prefix.len() <= s.len() && s.subrange(0, prefix.len() as int) == prefix
}

/// The position of the last occurrence of `b` in `s`, if any.
pub open spec fn last_index_of(s: Seq<u8>, b: u8) -> Option<int>
    decreases s.len(),
{
    if s.len() == 0 {
        None
    } else if s.last() == b {
        Some(s.len() - 1)
    } else {
        last_index_of(s.drop_last(), b)
    }
}

pub proof fn lemma_last_index_of(s: Seq<u8>, b: u8)
    ensures
        match last_index_of(s, b) {
            Some(i) => 0 <= i < s.len() && s[i] == b && forall|j: int| i < j < s.len() ==> s[j] != b,
            None => forall|j: int| 0 <= j < s.len() ==> s[j] != b,
        },
    decreases s.len(),
{
    if s.len() > 0 && s.last() != b {
        lemma_last_index_of(s.drop_last(), b);
        assert(forall|j: int| 0 <= j < s.len() - 1 ==> s.drop_last()[j] == s[j]);
    }
}

/// Whether `buf` begins with `sig`.
pub fn starts_with(buf: &[u8], sig: &[u8]) -> (r: bool)
    ensures
        r == has_prefix(buf@, sig@),
{
    if sig.len() > buf.len() {
        return false;
    }
    let mut i: usize = 0;
    while i < sig.len()
        invariant
            i <= sig@.len(),
            sig@.len() <= buf@.len(),
            forall|j: int| 0 <= j < i ==> buf@[j] == sig@[j],
        decreases sig@.len() - i,
    {
        if buf[i] != sig[i] {
            assert(buf@.subrange(0, sig@.len() as int)[i as int] != sig@[i as int]);
            return false;
        }
        i = i + 1;
    }
    assert(buf@.subrange(0, sig@.len() as int) =~= sig@);
    true
}

/// Whether `s`, lower-cased, equals `lowercase`.
pub fn eq_lower(s: &[u8], lowercase: &[u8]) -> (r: bool)
    ensures
        r == (lower(s@) == lowercase@),
{
    if s.len() != lowercase.len() {
        assert(lower(s@).len() != lowercase@.len());
        return false;
    }
    let mut i: usize = 0;
    while i < s.len()
        invariant
            i <= s@.len(),
            s@.len() == lowercase@.len(),
            forall|j: int| 0 <= j < i ==> ascii_lower(s@[j]) == lowercase@[j],
        decreases s@.len() - i,
    {
        let b = s[i];
        let l: u8 = if 0x41 <= b && b <= 0x5a { b + 0x20 } else { b };
        if l != lowercase[i] {
            assert(lower(s@)[i as int] != lowercase@[i as int]);
            return false;
        }
        i = i + 1;
    }
    assert(lower(s@) =~= lowercase@);
    true
}

/// The position of the last occurrence of `b` in `s`, if any.
pub fn find_last(s: &[u8], b: u8) -> (r: Option<usize>)
    ensures
        r matches Some(i) ==> i < s@.len() && last_index_of(s@, b) == Some(i as int),
        r is None ==> last_index_of(s@, b) is None,
{
    let mut i: usize = s.len();
    assert(s@.subrange(0, i as int) =~= s@);
    while i > 0
        invariant
            i <= s@.len(),
            last_index_of(s@, b) == last_index_of(s@.subrange(0, i as int), b),
        decreases i,
    {
        let ghost pre = s@.subrange(0, i as int);
        assert(pre.drop_last() =~= s@.subrange(0, i - 1));
        if s[i - 1] == b {
            return Some(i - 1);
        }
        i = i - 1;
    }
    assert(s@.subrange(0, 0) =~= Seq::<u8>::empty());
    None
}

/// A copy of `s[start..]`.
pub fn copy_from(s: &[u8], start: usize) -> (r: Vec<u8>)
    requires
        start <= s@.len(),
    ensures
        r@ == s@.subrange(start as int, s@.len() as int),
{
    let mut r: Vec<u8> = Vec::new();
    let mut i: usize = start;
    while i < s.len()
        invariant
            start <= i <= s@.len(),
            r@ == s@.subrange(start as int, i as int),
        decreases s@.len() - i,
    {
        r.push(s[i]);
        i = i + 1;
        assert(r@ =~= s@.subrange(start as int, i as int));
    }
    r
}

} // verus!
