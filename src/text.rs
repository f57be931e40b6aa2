use vstd::prelude::*;

verus! {

/// Character-wise equality of two string slices.
pub fn str_eq(a: &str, b: &str) -> (r: bool)
    ensures
        r == (a@ == b@),
{
    let n = a.unicode_len();
    if n != b.unicode_len() {
        return false;
    }
    let mut i: usize = 0;
    while i < n
        invariant
            n == a@.len(),
            n == b@.len(),
            i <= n,
            a@.subrange(0, i as int) == b@.subrange(0, i as int),
        decreases n - i,
    {
        if a.get_char(i) != b.get_char(i) {
            return false;
        }
        assert(a@.subrange(0, i + 1) =~= a@.subrange(0, i as int).push(a@[i as int]));
        assert(b@.subrange(0, i + 1) =~= b@.subrange(0, i as int).push(b@[i as int]));
        i = i + 1;
    }
    assert(a@ =~= a@.subrange(0, n as int));
    assert(b@ =~= b@.subrange(0, n as int));
    true
}

/// Whether the first `len` characters of `p` begin `s`.
pub fn prefix_of(p: &str, len: usize, s: &str) -> (r: bool)
    requires
        len <= p@.len(),
    ensures
        r == p@.subrange(0, len as int).is_prefix_of(s@),
{
    let n = s.unicode_len();
    if len > n {
        return false;
    }
    let mut i: usize = 0;
    while i < len
        invariant
            len <= p@.len(),
            len <= n,
            n == s@.len(),
            i <= len,
            p@.subrange(0, i as int) == s@.subrange(0, i as int),
        decreases len - i,
    {
        if p.get_char(i) != s.get_char(i) {
            assert(p@.subrange(0, len as int)[i as int] != s@.subrange(0, len as int)[i as int]);
            return false;
        }
        assert(p@.subrange(0, i + 1) =~= p@.subrange(0, i as int).push(p@[i as int]));
        assert(s@.subrange(0, i + 1) =~= s@.subrange(0, i as int).push(s@[i as int]));
        i = i + 1;
    }
    true
}

} // verus!
