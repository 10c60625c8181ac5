//! Character-level text utilities the parsers and classifiers build on.
//!
//! Everything here is specified over `Seq<char>` views. Substring search
//! is what classifies a probe body; the prefix, suffix, trim and replace
//! operations carry the WHOIS and certificate parsers.

use vstd::prelude::*;

verus! {

/// The needle `n` occurs in `h` starting at position `i`.
pub open spec fn contains_at(h: Seq<char>, n: Seq<char>, i: int) -> bool {
    0 <= i && i + n.len() <= h.len() && h.subrange(i, i + n.len()) == n
}

/// The needle `n` occurs somewhere in `h`.
pub open spec fn spec_contains(h: Seq<char>, n: Seq<char>) -> bool {
    exists|i: int| contains_at(h, n, i)
}

/// The first position at or after `i` where `n` occurs in `h`, if any.
pub open spec fn find_from(h: Seq<char>, n: Seq<char>, i: int) -> Option<int>
    decreases h.len() - i,
{
    if i < 0 || i + n.len() > h.len() {
        None
    } else if h.subrange(i, i + n.len()) == n {
        Some(i)
    } else if i < h.len() {
        find_from(h, n, i + 1)
    } else {
        None
    }
}

/// The last position strictly before `end` holding the character `c`.
pub open spec fn rfind_char_before(h: Seq<char>, c: char, end: int) -> Option<int>
    decreases end,
{
    if end <= 0 || end > h.len() {
        None
    } else if h[end - 1] == c {
        Some(end - 1)
    } else {
        rfind_char_before(h, c, end - 1)
    }
}

/// `h` with the first occurrence of `n` removed; `h` itself if `n` does
/// not occur.
pub open spec fn spec_remove_first(h: Seq<char>, n: Seq<char>) -> Seq<char> {
    match find_from(h, n, 0) {
        Some(i) => h.subrange(0, i) + h.subrange(i + n.len(), h.len() as int),
        None => h,
    }
}

/// The whitespace characters `trim` strips.
pub open spec fn is_space(c: char) -> bool {
    c == ' ' || c == '\t' || c == '\r' || c == '\n'
}

/// The first index at or after `i` holding a non-space character, or the
/// length of `h` if spaces run to the end.
pub open spec fn skip_spaces(h: Seq<char>, i: int) -> int
    decreases h.len() - i,
{
    if i < 0 || i >= h.len() {
        h.len() as int
    } else if is_space(h[i]) {
        skip_spaces(h, i + 1)
    } else {
        i
    }
}

/// The index just past the last non-space character strictly before `j`,
/// or 0 if spaces run to the front.
pub open spec fn rskip_spaces(h: Seq<char>, j: int) -> int
    decreases j,
{
    if j <= 0 || j > h.len() {
        0
    } else if is_space(h[j - 1]) {
        rskip_spaces(h, j - 1)
    } else {
        j
    }
}

/// `h` with leading and trailing spaces removed.
pub open spec fn spec_trim(h: Seq<char>) -> Seq<char> {
    let lo = skip_spaces(h, 0);
    let hi = rskip_spaces(h, h.len() as int);
    if lo <= hi {
        h.subrange(lo, hi)
    } else {
        Seq::empty()
    }
}

/// `h` with every occurrence of the character `from` replaced by `to`.
pub open spec fn spec_replace_char(h: Seq<char>, from: char, to: char) -> Seq<char> {
    Seq::new(
        h.len(),
        |i: int|
            if h[i] == from {
                to
            } else {
                h[i]
            },
    )
}

/// `p` is a prefix of `h`.
pub open spec fn spec_starts_with(h: Seq<char>, p: Seq<char>) -> bool {
    p.len() <= h.len() && h.subrange(0, p.len() as int) == p
}

/// `p` is a suffix of `h`.
pub open spec fn spec_ends_with(h: Seq<char>, p: Seq<char>) -> bool {
    p.len() <= h.len() && h.subrange(h.len() - p.len(), h.len() as int) == p
}

/// Relies on `String::push` of std: appends the given character to the
/// end of the string.
pub assume_specification[ String::push ](s: &mut String, c: char)
    ensures
        final(s)@ == old(s)@.push(c),
;

/// Once every position at or after `lo` and before `i` fails to match,
/// a match at `i` is the first one at or after `lo`.
proof fn lemma_find_from_found(h: Seq<char>, n: Seq<char>, lo: int, i: int)
    requires
        0 <= lo <= i,
        forall|j: int| lo <= j < i ==> !contains_at(h, n, j),
        contains_at(h, n, i),
    ensures
        find_from(h, n, lo) == Some(i),
    decreases i - lo,
{
    if lo < i {
        assert(!contains_at(h, n, lo));
        lemma_find_from_found(h, n, lo + 1, i);
    }
}

/// Once every position at or after `lo` fails to match, the search from
/// `lo` comes back empty.
proof fn lemma_find_from_none(h: Seq<char>, n: Seq<char>, lo: int)
    requires
        0 <= lo,
        n.len() >= 1,
        forall|j: int| lo <= j ==> !contains_at(h, n, j),
    ensures
        find_from(h, n, lo) is None,
    decreases h.len() - lo,
{
    assert(!contains_at(h, n, lo));
    if lo + n.len() <= h.len() {
        lemma_find_from_none(h, n, lo + 1);
    }
}

/// Whether `n` occurs in `h` starting at `i`, by character comparison.
fn matches_at(h: &str, n: &str, i: usize, hlen: usize, nlen: usize) -> (b: bool)
    requires
        hlen == h@.len(),
        nlen == n@.len(),
        i + nlen <= hlen,
    ensures
        b == contains_at(h@, n@, i as int),
{
    let mut k: usize = 0;
    while k < nlen
        invariant
            hlen == h@.len(),
            nlen == n@.len(),
            i + nlen <= hlen,
            k <= nlen,
            forall|m: int| 0 <= m < k ==> h@[i + m] == n@[m],
        decreases nlen - k,
    {
        if h.get_char(i + k) != n.get_char(k) {
            assert(h@.subrange(i as int, i + nlen) != n@) by {
                assert(h@.subrange(i as int, i + nlen)[k as int] != n@[k as int]);
            }
            return false;
        }
        k = k + 1;
    }
    assert(h@.subrange(i as int, i + nlen) =~= n@);
    true
}

/// Whether two strings hold the same characters.
pub fn str_eq(a: &str, b: &str) -> (r: bool)
    ensures
        r == (a@ == b@),
{
    let alen: usize = a.unicode_len();
    let blen: usize = b.unicode_len();
    if alen != blen {
        assert(a@ != b@);
        return false;
    }
    let mut k: usize = 0;
    while k < alen
        invariant
            alen == a@.len(),
            alen == b@.len(),
            k <= alen,
            forall|m: int| 0 <= m < k ==> a@[m] == b@[m],
        decreases alen - k,
    {
        if a.get_char(k) != b.get_char(k) {
            return false;
        }
        k = k + 1;
    }
    assert(a@ =~= b@);
    true
}

/// The first position at or after `from` where `n` occurs in `h`, if any.
pub fn find_sub_from(h: &str, n: &str, from: usize) -> (r: Option<usize>)
    ensures
        match r {
            Some(i) => find_from(h@, n@, from as int) == Some(i as int),
            None => find_from(h@, n@, from as int) is None,
        },
{
    let hlen: usize = h.unicode_len();
    let nlen: usize = n.unicode_len();
    if nlen > hlen || from > hlen - nlen {
        assert(find_from(h@, n@, from as int) is None) by {
            assert(from + nlen > hlen);
        }
        return None;
    }
    if nlen == 0 {
        proof {
            assert(h@.subrange(from as int, from as int) =~= n@);
        }
        return Some(from);
    }
    let mut i: usize = from;
    while i <= hlen - nlen
        invariant
            hlen == h@.len(),
            nlen == n@.len(),
            1 <= nlen <= hlen,
            from <= i,
            i <= hlen - nlen + 1,
            forall|j: int| from <= j < i ==> !contains_at(h@, n@, j),
        decreases hlen - nlen - i + 1,
    {
        if matches_at(h, n, i, hlen, nlen) {
            proof {
                lemma_find_from_found(h@, n@, from as int, i as int);
            }
            return Some(i);
        }
        i = i + 1;
    }
    proof {
        assert(forall|j: int| from <= j ==> !contains_at(h@, n@, j)) by {
            assert(forall|j: int| j > hlen - nlen ==> !contains_at(h@, n@, j));
        }
        lemma_find_from_none(h@, n@, from as int);
    }
    None
}

/// The first occurrence of `n` in `h`, if any.
pub fn find_sub(h: &str, n: &str) -> (r: Option<usize>)
    ensures
        match r {
            Some(i) => find_from(h@, n@, 0) == Some(i as int),
            None => find_from(h@, n@, 0) is None,
        },
{
    find_sub_from(h, n, 0)
}

/// Whether `n` occurs anywhere in `h`.
pub fn contains_sub(h: &str, n: &str) -> (b: bool)
    ensures
        b == spec_contains(h@, n@),
{
    let r = find_sub_from(h, n, 0);
    proof {
        lemma_contains_iff_find(h@, n@);
    }
    r.is_some()
}

/// `h` holds `n` exactly when a search from the front finds it.
pub proof fn lemma_contains_iff_find(h: Seq<char>, n: Seq<char>)
    ensures
        spec_contains(h, n) <==> find_from(h, n, 0) is Some,
{
    if find_from(h, n, 0) is Some {
        lemma_find_some_is_match(h, n, 0);
    }
    if spec_contains(h, n) {
        let i = choose|i: int| contains_at(h, n, i);
        if find_from(h, n, 0) is None {
            lemma_none_means_no_match(h, n, 0, i);
        }
    }
}

/// A successful forward search lands at or after its starting point, on
/// a real match.
pub proof fn lemma_find_from_located(h: Seq<char>, n: Seq<char>, lo: int)
    requires
        find_from(h, n, lo) is Some,
    ensures
        lo <= find_from(h, n, lo)->Some_0,
        contains_at(h, n, find_from(h, n, lo)->Some_0),
    decreases h.len() - lo,
{
    if lo + n.len() <= h.len() && h.subrange(lo, lo + n.len()) != n && lo < h.len() {
        lemma_find_from_located(h, n, lo + 1);
    }
}

/// A successful backward character search lands strictly before its
/// starting point, on the character sought.
pub proof fn lemma_rfind_located(h: Seq<char>, c: char, end: int)
    requires
        rfind_char_before(h, c, end) is Some,
    ensures
        0 <= rfind_char_before(h, c, end)->Some_0 < end <= h.len(),
        h[rfind_char_before(h, c, end)->Some_0] == c,
    decreases end,
{
    if 0 < end <= h.len() && h[end - 1] != c {
        lemma_rfind_located(h, c, end - 1);
    }
}

/// A successful search result really is a match position.
proof fn lemma_find_some_is_match(h: Seq<char>, n: Seq<char>, lo: int)
    requires
        find_from(h, n, lo) is Some,
    ensures
        contains_at(h, n, find_from(h, n, lo)->Some_0),
    decreases h.len() - lo,
{
    if lo + n.len() <= h.len() && h.subrange(lo, lo + n.len()) != n {
        lemma_find_some_is_match(h, n, lo + 1);
    }
}

/// An empty search result means no position at or after `lo` matches.
proof fn lemma_none_means_no_match(h: Seq<char>, n: Seq<char>, lo: int, i: int)
    requires
        find_from(h, n, lo) is None,
        0 <= lo <= i,
    ensures
        !contains_at(h, n, i),
    decreases i - lo,
{
    if lo < i {
        lemma_none_means_no_match(h, n, lo + 1, i);
    }
}

/// The last position strictly before `end` holding character `c`, if any.
pub fn rfind_char(h: &str, c: char, end: usize) -> (r: Option<usize>)
    requires
        end <= h@.len(),
    ensures
        match r {
            Some(i) => rfind_char_before(h@, c, end as int) == Some(i as int),
            None => rfind_char_before(h@, c, end as int) is None,
        },
{
    let mut j: usize = end;
    while j > 0
        invariant
            end <= h@.len(),
            j <= end,
            rfind_char_before(h@, c, end as int) == rfind_char_before(h@, c, j as int),
        decreases j,
    {
        if h.get_char(j - 1) == c {
            return Some(j - 1);
        }
        j = j - 1;
    }
    None
}

/// Whether `p` is a prefix of `h`.
pub fn starts_with(h: &str, p: &str) -> (b: bool)
    ensures
        b == spec_starts_with(h@, p@),
{
    let hlen: usize = h.unicode_len();
    let plen: usize = p.unicode_len();
    if plen > hlen {
        return false;
    }
    matches_at(h, p, 0, hlen, plen)
}

/// Whether `p` is a suffix of `h`.
pub fn ends_with(h: &str, p: &str) -> (b: bool)
    ensures
        b == spec_ends_with(h@, p@),
{
    let hlen: usize = h.unicode_len();
    let plen: usize = p.unicode_len();
    if plen > hlen {
        return false;
    }
    matches_at(h, p, hlen - plen, hlen, plen)
}

/// `h` without the prefix `p`, or `h` unchanged if `p` is not its prefix.
pub fn strip_prefix_if<'a>(h: &'a str, p: &str) -> (r: &'a str)
    ensures
        r@ == if spec_starts_with(h@, p@) {
            h@.subrange(p@.len() as int, h@.len() as int)
        } else {
            h@
        },
{
    if starts_with(h, p) {
        let hlen: usize = h.unicode_len();
        let plen: usize = p.unicode_len();
        h.substring_char(plen, hlen)
    } else {
        h
    }
}

/// The part of `h` before the first occurrence of `n`; all of `h` if `n`
/// does not occur.
pub fn prefix_before<'a>(h: &'a str, n: &str) -> (r: &'a str)
    ensures
        r@ == match find_from(h@, n@, 0) {
            Some(i) => h@.subrange(0, i),
            None => h@,
        },
{
    match find_sub_from(h, n, 0) {
        Some(i) => {
            proof {
                lemma_find_some_is_match(h@, n@, 0);
            }
            h.substring_char(0, i)
        },
        None => h,
    }
}

/// `h` with the first occurrence of `n` removed; `h` itself if `n` does
/// not occur.
pub fn remove_first(h: &str, n: &str) -> (r: String)
    ensures
        r@ == spec_remove_first(h@, n@),
{
    match find_sub_from(h, n, 0) {
        Some(i) => {
            proof {
                lemma_find_some_is_match(h@, n@, 0);
            }
            let hlen: usize = h.unicode_len();
            let nlen: usize = n.unicode_len();
            let head = h.substring_char(0, i);
            let tail = h.substring_char(i + nlen, hlen);
            String::from_str(head).concat(tail)
        },
        None => String::from_str(h),
    }
}

/// `h` with leading and trailing spaces removed.
pub fn trim_spaces<'a>(h: &'a str) -> (r: &'a str)
    ensures
        r@ == spec_trim(h@),
{
    let hlen: usize = h.unicode_len();
    let mut lo: usize = 0;
    while lo < hlen && is_space_char(h.get_char(lo))
        invariant
            hlen == h@.len(),
            lo <= hlen,
            skip_spaces(h@, 0) == skip_spaces(h@, lo as int),
        decreases hlen - lo,
    {
        lo = lo + 1;
    }
    assert(skip_spaces(h@, 0) == lo);
    let mut hi: usize = hlen;
    while hi > 0 && is_space_char(h.get_char(hi - 1))
        invariant
            hlen == h@.len(),
            hi <= hlen,
            rskip_spaces(h@, hlen as int) == rskip_spaces(h@, hi as int),
        decreases hi,
    {
        hi = hi - 1;
    }
    assert(rskip_spaces(h@, hlen as int) == hi);
    if lo <= hi {
        h.substring_char(lo, hi)
    } else {
        assert(spec_trim(h@) =~= ""@) by {
            reveal_strlit("");
        }
        ""
    }
}

/// Whether `trim` treats `c` as a space.
pub fn is_space_char(c: char) -> (b: bool)
    ensures
        b == is_space(c),
{
    c == ' ' || c == '\t' || c == '\r' || c == '\n'
}

/// `h` with every occurrence of the character `from` replaced by `to`.
pub fn replace_char(h: &str, from: char, to: char) -> (r: String)
    ensures
        r@ == spec_replace_char(h@, from, to),
{
    let hlen: usize = h.unicode_len();
    let mut out = String::new();
    let mut i: usize = 0;
    while i < hlen
        invariant
            hlen == h@.len(),
            i <= hlen,
            out@ =~= spec_replace_char(h@, from, to).subrange(0, i as int),
        decreases hlen - i,
    {
        let c = h.get_char(i);
        if c == from {
            out.push(to);
        } else {
            out.push(c);
        }
        assert(out@ =~= spec_replace_char(h@, from, to).subrange(0, i + 1));
        i = i + 1;
    }
    assert(spec_replace_char(h@, from, to).subrange(0, hlen as int) =~= spec_replace_char(
        h@,
        from,
        to,
    ));
    out
}

} // verus!
