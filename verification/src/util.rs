//! The byte-pattern scanner: find the first occurrence of a literal byte
//! pattern in a source buffer and report how many bytes, counted from the
//! start of the source and including the pattern itself, a reader would have
//! to consume to reach it.  A false partial match must not make the scanner
//! skip bytes that could start the real occurrence.

use vstd::prelude::*;

verus! {

/// The pattern ends exactly at position `n` of the source.
pub open spec fn match_at(src: Seq<u8>, pat: Seq<u8>, n: int) -> bool {
    pat.len() <= n <= src.len() && src.subrange(n - pat.len(), n) == pat
}

/// The pattern occurs somewhere in the source.
pub open spec fn pattern_occurs(src: Seq<u8>, pat: Seq<u8>) -> bool {
    exists|n: int| match_at(src, pat, n)
}

fn match_ends_at(src: &Vec<u8>, pat: &Vec<u8>, end: usize) -> (r: bool)
    requires
        pat@.len() <= end <= src@.len(),
    ensures
        r == match_at(src@, pat@, end as int),
{
    let start: usize = end - pat.len();
    let mut j: usize = 0;
    while j < pat.len()
        invariant
            j <= pat@.len(),
            pat@.len() <= end <= src@.len(),
            start == end - pat@.len(),
            forall|k: int| 0 <= k < j ==> src@[start + k] == pat@[k],
        decreases pat@.len() - j,
    {
        if src[start + j] != pat[j] {
            assert(src@.subrange(end - pat@.len(), end as int)[j as int] != pat@[j as int]);
            return false;
        }
        j = j + 1;
    }
    assert(src@.subrange(end - pat@.len(), end as int) =~= pat@);
    true
}

pub(crate) fn append_prefix(dst: &mut Vec<u8>, src: &Vec<u8>, upto: usize)
    requires
        upto <= src@.len(),
    ensures
        final(dst)@ == old(dst)@ + src@.subrange(0, upto as int),
{
    let mut i: usize = 0;
    while i < upto
        invariant
            i <= upto <= src@.len(),
            dst@ == old(dst)@ + src@.subrange(0, i as int),
        decreases upto - i,
    {
        dst.push(src[i]);
        assert(dst@ =~= old(dst)@ + src@.subrange(0, i + 1));
        i = i + 1;
    }
    assert(dst@ =~= old(dst)@ + src@.subrange(0, upto as int));
}

/// Append the whole source buffer to the destination buffer.
pub(crate) fn append_bytes(dst: &mut Vec<u8>, src: &Vec<u8>)
    ensures
        final(dst)@ == old(dst)@ + src@,
{
    let n: usize = src.len();
    append_prefix(dst, src, n);
    assert(dst@ =~= old(dst)@ + src@);
}

/// Scan the source for the first occurrence of the pattern.
///
/// On `Some(n)`, the pattern ends at position `n`, nowhere earlier, and the
/// destination buffer received exactly the first `n` source bytes, pattern
/// included.  An empty pattern consumes the whole source.  On `None` the
/// pattern does not occur at all — the reader would hit the end of the
/// stream first — and the destination received the whole source.
pub fn read_until_bytes(src: &Vec<u8>, dst: &mut Vec<u8>, pat: &Vec<u8>) -> (r: Option<usize>)
    ensures
        match r {
            Some(n) => {
                &&& if pat@.len() == 0 {
                    n == src@.len()
                } else {
                    match_at(src@, pat@, n as int) && forall|m: int|
                        0 <= m < n ==> !match_at(src@, pat@, m)
                }
                &&& final(dst)@ == old(dst)@ + src@.subrange(0, n as int)
            },
            None => {
                &&& pat@.len() > 0
                &&& !pattern_occurs(src@, pat@)
                &&& final(dst)@ == old(dst)@ + src@
            },
        },
{
    if pat.len() == 0 {
        let n: usize = src.len();
        append_prefix(dst, src, n);
        return Some(n);
    }
    if src.len() < pat.len() {
        append_prefix(dst, src, src.len());
        assert(dst@ =~= old(dst)@ + src@);
        assert(forall|m: int| !match_at(src@, pat@, m));
        return None;
    }
    let mut end: usize = pat.len();
    loop
        invariant_except_break
            pat@.len() >= 1,
            pat@.len() <= end <= src@.len(),
            forall|m: int| 0 <= m < end ==> !match_at(src@, pat@, m),
        invariant
            dst@ == old(dst)@,
        ensures
            forall|m: int| !match_at(src@, pat@, m),
        decreases src@.len() - end,
    {
        if match_ends_at(src, pat, end) {
            append_prefix(dst, src, end);
            return Some(end);
        }
        if end == src.len() {
            break;
        }
        end = end + 1;
    }
    append_prefix(dst, src, src.len());
    assert(dst@ =~= old(dst)@ + src@);
    None
}

/// Whether a byte is ASCII whitespace.
pub open spec fn is_ascii_ws(b: u8) -> bool {
    b == 32 || b == 9 || b == 10 || b == 12 || b == 13
}

/// The sequence with its leading ASCII whitespace removed.
pub open spec fn ltrim(s: Seq<u8>) -> Seq<u8>
    decreases s.len(),
{
    if s.len() > 0 && is_ascii_ws(s[0]) {
        ltrim(s.drop_first())
    } else {
        s
    }
}

/// The sequence with its trailing ASCII whitespace removed.
pub open spec fn rtrim(s: Seq<u8>) -> Seq<u8>
    decreases s.len(),
{
    if s.len() > 0 && is_ascii_ws(s[s.len() - 1]) {
        rtrim(s.drop_last())
    } else {
        s
    }
}

/// The sequence with surrounding ASCII whitespace removed.
pub open spec fn spec_trim(s: Seq<u8>) -> Seq<u8> {
    rtrim(ltrim(s))
}

/// The first sequence is a prefix of the second.
pub open spec fn is_prefix_of(p: Seq<u8>, s: Seq<u8>) -> bool {
    p.len() <= s.len() && s.subrange(0, p.len() as int) == p
}

fn is_ws_byte(b: u8) -> (r: bool)
    ensures
        r == is_ascii_ws(b),
{
    b == 32 || b == 9 || b == 10 || b == 12 || b == 13
}

/// Bounds of the range that remains of `v[lo..hi]` after trimming
/// surrounding ASCII whitespace.
pub fn trim_range(v: &Vec<u8>, lo: usize, hi: usize) -> (r: (usize, usize))
    requires
        lo <= hi <= v@.len(),
    ensures
        lo <= r.0 <= r.1 <= hi,
        spec_trim(v@.subrange(lo as int, hi as int)) == v@.subrange(r.0 as int, r.1 as int),
{
    let mut a: usize = lo;
    while a < hi && is_ws_byte(v[a])
        invariant
            lo <= a <= hi <= v@.len(),
            ltrim(v@.subrange(lo as int, hi as int)) == ltrim(v@.subrange(a as int, hi as int)),
        decreases hi - a,
    {
        proof {
            assert(v@.subrange(a as int, hi as int).drop_first() =~= v@.subrange(
                a + 1,
                hi as int,
            ));
        }
        a = a + 1;
    }
    assert(ltrim(v@.subrange(lo as int, hi as int)) == v@.subrange(a as int, hi as int));
    let mut b: usize = hi;
    while b > a && is_ws_byte(v[b - 1])
        invariant
            a <= b <= hi <= v@.len(),
            rtrim(v@.subrange(a as int, hi as int)) == rtrim(v@.subrange(a as int, b as int)),
        decreases b,
    {
        proof {
            assert(v@.subrange(a as int, b as int).drop_last() =~= v@.subrange(
                a as int,
                b - 1,
            ));
        }
        b = b - 1;
    }
    assert(rtrim(v@.subrange(a as int, hi as int)) == v@.subrange(a as int, b as int));
    (a, b)
}

/// Whether `v[lo..hi]` starts with the given pattern.
pub fn range_has_prefix(v: &Vec<u8>, lo: usize, hi: usize, pat: &Vec<u8>) -> (r: bool)
    requires
        lo <= hi <= v@.len(),
    ensures
        r == is_prefix_of(pat@, v@.subrange(lo as int, hi as int)),
{
    if hi - lo < pat.len() {
        return false;
    }
    let mut j: usize = 0;
    while j < pat.len()
        invariant
            j <= pat@.len(),
            lo <= hi <= v@.len(),
            pat@.len() <= hi - lo,
            forall|k: int| 0 <= k < j ==> v@[lo + k] == pat@[k],
        decreases pat@.len() - j,
    {
        if v[lo + j] != pat[j] {
            assert(v@.subrange(lo as int, hi as int).subrange(0, pat@.len() as int)[j as int]
                != pat@[j as int]);
            return false;
        }
        j = j + 1;
    }
    assert(v@.subrange(lo as int, hi as int).subrange(0, pat@.len() as int) =~= pat@);
    true
}

/// Whether two byte buffers hold the same bytes.
pub fn bytes_eq(x: &Vec<u8>, y: &Vec<u8>) -> (r: bool)
    ensures
        r == (x@ == y@),
{
    if x.len() != y.len() {
        return false;
    }
    let mut i: usize = 0;
    while i < x.len()
        invariant
            i <= x@.len(),
            x@.len() == y@.len(),
            forall|k: int| 0 <= k < i ==> x@[k] == y@[k],
        decreases x@.len() - i,
    {
        if x[i] != y[i] {
            return false;
        }
        i = i + 1;
    }
    assert(x@ =~= y@);
    true
}

/// A copy of `v[lo..hi]`.
pub fn copy_range(v: &Vec<u8>, lo: usize, hi: usize) -> (r: Vec<u8>)
    requires
        lo <= hi <= v@.len(),
    ensures
        r@ == v@.subrange(lo as int, hi as int),
{
    let mut r: Vec<u8> = Vec::new();
    let mut i: usize = lo;
    while i < hi
        invariant
            lo <= i <= hi <= v@.len(),
            r@ == v@.subrange(lo as int, i as int),
        decreases hi - i,
    {
        r.push(v[i]);
        assert(r@ =~= v@.subrange(lo as int, i + 1));
        i = i + 1;
    }
    r
}

} // verus!
