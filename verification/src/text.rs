//! Byte-string helpers shared by browsing, record building and the
//! discovery framing.  Names and identifiers travel through the bridge
//! as plain byte strings.

use vstd::prelude::*;

verus! {

/// True when `needle` occurs contiguously inside `hay`.
pub open spec fn contains_bytes(hay: Seq<u8>, needle: Seq<u8>) -> bool {
    exists|i: int|
        0 <= i && i + needle.len() <= hay.len()
            && #[trigger] hay.subrange(i, i + needle.len()) == needle
}

/// The part of `s` after its last `.` byte; all of `s` when no `.`
/// occurs in it.
pub open spec fn last_dot_segment(s: Seq<u8>) -> Seq<u8>
    decreases s.len(),
{
    if s.len() == 0 {
        Seq::empty()
    } else if s.last() == 46u8 {
        Seq::empty()
    } else {
        last_dot_segment(s.drop_last()).push(s.last())
    }
}

/// Byte-wise equality of two byte strings.
pub fn bytes_eq(a: &Vec<u8>, b: &Vec<u8>) -> (r: bool)
    ensures
        r == (a@ == b@),
{
    if a.len() != b.len() {
        proof {
            assert(a@ != b@);
        }
        return false;
    }
    let n = a.len();
    let mut i: usize = 0;
    while i < n
        invariant
            n == a.len() == b.len(),
            i <= n,
            forall|j: int| 0 <= j < i ==> a@[j] == b@[j],
        decreases n - i,
    {
        if a[i] != b[i] {
            proof {
                assert(a@[i as int] != b@[i as int]);
            }
            return false;
        }
        i = i + 1;
    }
    proof {
        assert(a@ =~= b@);
    }
    true
}

/// Naive search for `needle` inside `hay`.
pub fn contains_subslice(hay: &Vec<u8>, needle: &Vec<u8>) -> (r: bool)
    ensures
        r == contains_bytes(hay@, needle@),
{
    let nlen = needle.len();
    let hlen = hay.len();
    if nlen > hlen {
        proof {
            assert(!contains_bytes(hay@, needle@));
        }
        return false;
    }
    if nlen == 0 {
        proof {
            assert(hay@.subrange(0, 0 + needle@.len() as int) =~= needle@);
        }
        return true;
    }
    let mut start: usize = 0;
    while start <= hlen - nlen
        invariant
            nlen == needle.len(),
            hlen == hay.len(),
            1 <= nlen <= hlen,
            start <= hlen - nlen + 1,
            forall|k: int|
                0 <= k < start ==> #[trigger] hay@.subrange(k, k + nlen as int) != needle@,
        decreases hlen - nlen - start + 1,
    {
        let mut j: usize = 0;
        let mut matched = true;
        while j < nlen
            invariant
                nlen == needle.len(),
                hlen == hay.len(),
                start + nlen <= hlen,
                j <= nlen,
                matched ==> forall|m: int| 0 <= m < j ==> hay@[start + m] == needle@[m],
                !matched ==> hay@.subrange(start as int, start + nlen as int) != needle@,
            decreases nlen - j,
        {
            if hay[start + j] != needle[j] {
                proof {
                    assert(hay@.subrange(start as int, start + nlen as int)[j as int]
                        != needle@[j as int]);
                }
                matched = false;
                j = nlen;
            } else {
                j = j + 1;
            }
        }
        if matched {
            proof {
                assert(hay@.subrange(start as int, start + nlen as int) =~= needle@);
            }
            return true;
        }
        start = start + 1;
    }
    proof {
        assert(forall|i: int|
            0 <= i && i + needle@.len() <= hay@.len()
                ==> #[trigger] hay@.subrange(i, i + needle@.len()) != needle@);
    }
    false
}

/// Copies the bytes of `s` from `start` on.
pub fn suffix_from(s: &Vec<u8>, start: usize) -> (r: Vec<u8>)
    requires
        start <= s.len(),
    ensures
        r@ == s@.skip(start as int),
{
    let mut r: Vec<u8> = Vec::new();
    let mut i: usize = start;
    while i < s.len()
        invariant
            start <= i <= s.len(),
            r@ =~= s@.subrange(start as int, i as int),
        decreases s.len() - i,
    {
        r.push(s[i]);
        i = i + 1;
    }
    proof {
        assert(r@ =~= s@.skip(start as int));
    }
    r
}

/// Copies a byte string.
pub fn clone_bytes(s: &Vec<u8>) -> (r: Vec<u8>)
    ensures
        r@ == s@,
{
    let mut r: Vec<u8> = Vec::new();
    let mut i: usize = 0;
    while i < s.len()
        invariant
            i <= s.len(),
            r@ =~= s@.take(i as int),
        decreases s.len() - i,
    {
        r.push(s[i]);
        i = i + 1;
    }
    proof {
        assert(r@ =~= s@);
    }
    r
}

/// Appends a copy of `src` to `dst`.
pub fn append_bytes(dst: &mut Vec<u8>, src: &Vec<u8>)
    ensures
        final(dst)@ == old(dst)@ + src@,
{
    let mut i: usize = 0;
    while i < src.len()
        invariant
            i <= src.len(),
            dst@ =~= old(dst)@ + src@.take(i as int),
        decreases src.len() - i,
    {
        dst.push(src[i]);
        i = i + 1;
    }
    proof {
        assert(dst@ =~= old(dst)@ + src@);
    }
}

/// The last dot-separated segment of `s`: what follows the final `.`,
/// or all of `s` when it holds no `.`.
pub fn last_segment(s: &Vec<u8>) -> (r: Vec<u8>)
    ensures
        r@ == last_dot_segment(s@),
{
    let mut current: Vec<u8> = Vec::new();
    let mut i: usize = 0;
    while i < s.len()
        invariant
            i <= s.len(),
            current@ == last_dot_segment(s@.take(i as int)),
        decreases s.len() - i,
    {
        proof {
            assert(s@.take(i + 1).drop_last() =~= s@.take(i as int));
            assert(s@.take(i + 1).last() == s@[i as int]);
        }
        if s[i] == 46u8 {
            current = Vec::new();
        } else {
            current.push(s[i]);
        }
        i = i + 1;
    }
    proof {
        assert(s@.take(s@.len() as int) =~= s@);
    }
    current
}

} // verus!
