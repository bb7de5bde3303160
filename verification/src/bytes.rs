//! Operations on byte sequences.
use vstd::prelude::*;

verus! {

/// The index of the first `b` in `s`, or the length of `s` where there is none.
pub open spec fn index_of(s: Seq<u8>, b: u8) -> int
    decreases s.len(),
{
    if s.len() == 0 {
        0
    } else if s[0] == b {
        0
    } else {
        1 + index_of(s.drop_first(), b)
    }
}

/// `index_of` is the position of the first occurrence.
pub proof fn lemma_index_of(s: Seq<u8>, b: u8)
    ensures
        0 <= index_of(s, b) <= s.len(),
        forall|j: int| 0 <= j < index_of(s, b) ==> s[j] != b,
        index_of(s, b) < s.len() ==> s[index_of(s, b)] == b,
    decreases s.len(),
{
    if s.len() > 0 && s[0] != b {
        lemma_index_of(s.drop_first(), b);
        assert forall|j: int| 0 <= j < index_of(s, b) implies s[j] != b by {
            if j > 0 {
                assert(s[j] == s.drop_first()[j - 1]);
            }
        }
    }
}

/// Where `a` holds no `b`, the first `b` of `a + c` is the first of `c`, shifted.
pub proof fn lemma_index_of_concat(a: Seq<u8>, c: Seq<u8>, b: u8)
    requires
        forall|j: int| 0 <= j < a.len() ==> a[j] != b,
    ensures
        index_of(a + c, b) == a.len() + index_of(c, b),
    decreases a.len(),
{
    if a.len() > 0 {
        assert((a + c).drop_first() =~= a.drop_first() + c);
        assert((a + c)[0] == a[0]);
        lemma_index_of_concat(a.drop_first(), c, b);
    } else {
        assert(a + c =~= c);
    }
}

/// Appends the bytes of `data` to `buffer`.
pub fn extend_from_slice(buffer: &mut Vec<u8>, data: &[u8])
    ensures
        final(buffer)@ == old(buffer)@ + data@,
{
    let mut i: usize = 0;
    while i < data.len()
        invariant
            i <= data@.len(),
            buffer@ == old(buffer)@ + data@.subrange(0, i as int),
        decreases data@.len() - i,
    {
        buffer.push(data[i]);
        i = i + 1;
        assert(data@.subrange(0, i as int) == data@.subrange(0, i - 1 as int).push(data@[i - 1]));
    }
    assert(data@.subrange(0, data@.len() as int) == data@);
}

/// A copy of the bytes of `s` from `from` up to, not including, `to`.
pub fn copy_range(s: &[u8], from: usize, to: usize) -> (r: Vec<u8>)
    requires
        from <= to <= s@.len(),
    ensures
        r@ == s@.subrange(from as int, to as int),
{
    let mut r: Vec<u8> = Vec::new();
    let mut i: usize = from;
    while i < to
        invariant
            from <= i <= to <= s@.len(),
            r@ == s@.subrange(from as int, i as int),
        decreases to - i,
    {
        r.push(s[i]);
        i = i + 1;
        assert(s@.subrange(from as int, i as int) == s@.subrange(from as int, i - 1 as int).push(s@[i - 1]));
    }
    r
}

/// The position of the first `b` in `s` at or after `from`, or the length of `s`.
pub fn find_byte(s: &[u8], from: usize, b: u8) -> (r: usize)
    requires
        from <= s@.len(),
    ensures
        r == from + index_of(s@.subrange(from as int, s@.len() as int), b),
{
    let mut i: usize = from;
    while i < s.len()
        invariant
            from <= i <= s@.len(),
            from + index_of(s@.subrange(from as int, s@.len() as int), b)
                == i + index_of(s@.subrange(i as int, s@.len() as int), b),
        decreases s@.len() - i,
    {
        if s[i] == b {
            return i;
        }
        assert(s@.subrange(i as int, s@.len() as int).drop_first() =~= s@.subrange(i + 1, s@.len() as int));
        i = i + 1;
    }
    i
}

} // verus!
