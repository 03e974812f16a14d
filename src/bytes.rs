//! Byte- and character-pattern matching used by the detectors and scanners.

use vstd::prelude::*;

verus! {

/// `p` occurs in `d` starting at `pos`.
pub open spec fn matches_at(d: Seq<u8>, pos: int, p: Seq<u8>) -> bool {
    0 <= pos && pos + p.len() <= d.len() && d.subrange(pos, pos + p.len()) == p
}

/// `d` begins with `p`.
pub open spec fn starts_with(d: Seq<u8>, p: Seq<u8>) -> bool {
    matches_at(d, 0, p)
}

/// `p` occurs entirely within the first `n` bytes of `d`.
pub open spec fn occurs_before(d: Seq<u8>, n: int, p: Seq<u8>) -> bool {
    exists|i: int| 0 <= i && i + p.len() <= n && #[trigger] matches_at(d, i, p)
}

/// `n` occurs as a contiguous run of characters in `h`.
pub open spec fn chars_contain(h: Seq<char>, n: Seq<char>) -> bool {
    exists|i: int| 0 <= i && i + n.len() <= h.len() && #[trigger] h.subrange(i, i + n.len()) == n
}

/// Does `pat` occur in `data` at offset `pos`?
pub fn bytes_match_at(data: &[u8], pos: usize, pat: &[u8]) -> (r: bool)
    ensures
        r == matches_at(data@, pos as int, pat@),
{
    if pat.len() > data.len() || pos > data.len() - pat.len() {
        return false;
    }
    let mut i: usize = 0;
    while i < pat.len()
        invariant
            i <= pat@.len(),
            pos + pat@.len() <= data.len(),
            forall|k: int| 0 <= k < i ==> data@[pos + k] == pat@[k],
        decreases pat@.len() - i,
    {
        if data[pos + i] != pat[i] {
            assert(data@.subrange(pos as int, pos + pat@.len())[i as int] != pat@[i as int]);
            return false;
        }
        i += 1;
    }
    assert(data@.subrange(pos as int, pos + pat@.len()) =~= pat@);
    true
}

/// Does `pat` occur within the first `limit` bytes of `data` (or within all
/// of `data` when it is shorter)?
pub fn occurs_in_prefix(data: &[u8], limit: usize, pat: &[u8]) -> (r: bool)
    ensures
        r == occurs_before(
            data@,
            if limit < data@.len() { limit as int } else { data@.len() as int },
            pat@,
        ),
{
    let n: usize = if limit < data.len() { limit } else { data.len() };
    if pat.len() > n {
        return false;
    }
    if pat.len() == 0 {
        assert(matches_at(data@, 0, pat@)) by {
            assert(data@.subrange(0, 0) =~= pat@);
        }
        return true;
    }
    let last: usize = n - pat.len();
    let mut i: usize = 0;
    while i <= last
        invariant
            n <= data@.len(),
            n as int == (if limit < data@.len() { limit as int } else { data@.len() as int }),
            last + pat@.len() == n,
            pat@.len() >= 1,
            i <= last + 1,
            forall|j: int| 0 <= j < i ==> !matches_at(data@, j, pat@),
        decreases last + 1 - i,
    {
        if bytes_match_at(data, i, pat) {
            assert(matches_at(data@, i as int, pat@));
            return true;
        }
        i += 1;
    }
    false
}

/// Character-wise equality of two strings.
pub fn str_equal(a: &str, b: &str) -> (r: bool)
    ensures
        r == (a@ == b@),
{
    let n = a.unicode_len();
    if n != b.unicode_len() {
        return false;
    }
    let mut i: usize = 0;
    while i < n
        invariant
            n == a@.len(),
            n == b@.len(),
            i <= n,
            forall|k: int| 0 <= k < i ==> a@[k] == b@[k],
        decreases n - i,
    {
        if a.get_char(i) != b.get_char(i) {
            return false;
        }
        i += 1;
    }
    assert(a@ =~= b@);
    true
}

/// Does `needle` occur in `hay`?
pub fn str_contains(hay: &str, needle: &str) -> (r: bool)
    ensures
        r == chars_contain(hay@, needle@),
{
    let h = hay.unicode_len();
    let m = needle.unicode_len();
    if m > h {
        return false;
    }
    let mut i: usize = 0;
    while i <= h - m
        invariant
            h == hay@.len(),
            m == needle@.len(),
            m <= h,
            i <= h - m + 1,
            forall|j: int| 0 <= j < i ==> #[trigger] hay@.subrange(j, j + m) != needle@,
        decreases h - m + 1 - i,
    {
        let mut k: usize = 0;
        let mut same = true;
        while k < m
            invariant
                h == hay@.len(),
                m == needle@.len(),
                i + m <= h,
                k <= m,
                same == (forall|t: int| 0 <= t < k ==> hay@[i + t] == needle@[t]),
            decreases m - k,
        {
            if hay.get_char(i + k) != needle.get_char(k) {
                same = false;
            }
            k += 1;
        }
        if same {
            assert(hay@.subrange(i as int, i + m) =~= needle@);
            return true;
        }
        assert(hay@.subrange(i as int, i + m) != needle@) by {
            let t = choose|t: int| 0 <= t < m && hay@[i + t] != needle@[t];
            assert(hay@.subrange(i as int, i + m)[t] != needle@[t]);
        }
        i += 1;
    }
    false
}

} // verus!
