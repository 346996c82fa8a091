//! UPS temperature extraction from the external status tool's output.
//!
//! Running the external command is input/output and stays outside the
//! library; what comes back (or the fact that nothing came back) is handed
//! in here.  The scan itself is fully verified: the output is read line by
//! line, the first line containing the key `ups.temperature` supplies the
//! value — the text after that line's first colon, trimmed — and every
//! failure (no output, no such line, no colon) yields the `N/A` sentinel.

use vstd::prelude::*;

verus! {

/// The sentinel shown when no temperature is available.
pub open spec fn na_seq() -> Seq<char> {
    "N/A"@
}

/// The key scanned for in the tool's output.
pub open spec fn ups_key() -> Seq<char> {
    "ups.temperature"@
}

/// Whether `needle` occurs in `hay` starting at position `i`.
pub open spec fn matches_at(hay: Seq<char>, needle: Seq<char>, i: int) -> bool {
    &&& 0 <= i
    &&& i + needle.len() <= hay.len()
    &&& forall|j: int| 0 <= j < needle.len() ==> hay[i + j] == needle[j]
}

/// Whether `needle` occurs anywhere in `hay`.
pub open spec fn seq_contains(hay: Seq<char>, needle: Seq<char>) -> bool {
    exists|i: int| matches_at(hay, needle, i)
}

/// The position of the first occurrence of `c` in `s` at or after `i`, or
/// `s.len()` when there is none.
pub open spec fn find_from(s: Seq<char>, c: char, i: int) -> int
    decreases s.len() - i,
{
    if i < 0 || i >= s.len() {
        s.len() as int
    } else if s[i] == c {
        i
    } else {
        find_from(s, c, i + 1)
    }
}

/// Whether `c` is ASCII whitespace, as trimmed from the extracted value.
pub open spec fn is_ws(c: char) -> bool {
    c == ' ' || c == '\t' || c == '\r' || c == '\n'
}

/// The position of the first non-whitespace character at or after `i`, or
/// `s.len()` when the rest is all whitespace.
pub open spec fn trim_start_idx(s: Seq<char>, i: int) -> int
    decreases s.len() - i,
{
    if i < 0 || i >= s.len() {
        s.len() as int
    } else if is_ws(s[i]) {
        trim_start_idx(s, i + 1)
    } else {
        i
    }
}

/// The position one past the last non-whitespace character below `i`, or 0
/// when everything below `i` is whitespace.
pub open spec fn trim_end_idx(s: Seq<char>, i: int) -> int
    decreases i,
{
    if i <= 0 || i > s.len() {
        0
    } else if is_ws(s[i - 1]) {
        trim_end_idx(s, i - 1)
    } else {
        i
    }
}

/// `s` with leading and trailing whitespace removed.
pub open spec fn trimmed(s: Seq<char>) -> Seq<char> {
    let a = trim_start_idx(s, 0);
    let b = trim_end_idx(s, s.len() as int);
    if a <= b {
        s.subrange(a, b)
    } else {
        Seq::empty()
    }
}

/// The value carried by a matched line: the text after its first colon,
/// trimmed; a line without a colon carries the sentinel.
pub open spec fn line_value(line: Seq<char>) -> Seq<char> {
    let j = find_from(line, ':', 0);
    if j == line.len() {
        na_seq()
    } else {
        trimmed(line.subrange(j + 1, line.len() as int))
    }
}

/// Whether a line contains the scanned-for key.
pub open spec fn has_key(line: Seq<char>) -> bool {
    seq_contains(line, ups_key())
}

/// The temperature extracted from the whole output: the value of the first
/// line containing the key, or the sentinel when no line does.
pub open spec fn ups_value(out: Seq<char>) -> Seq<char>
    decreases out.len(),
    via ups_value_decreases
{
    if out.len() == 0 {
        na_seq()
    } else {
        let j = find_from(out, '\n', 0);
        let line = out.subrange(0, j);
        if has_key(line) {
            line_value(line)
        } else if j == out.len() {
            na_seq()
        } else {
            ups_value(out.subrange(j + 1, out.len() as int))
        }
    }
}

#[via_fn]
proof fn ups_value_decreases(out: Seq<char>) {
    lemma_find_from_bounds(out, '\n', 0);
}

/// `find_from` lands in `[i, s.len()]`, on `c` if within bounds, and skips
/// no earlier occurrence.
pub proof fn lemma_find_from_bounds(s: Seq<char>, c: char, i: int)
    requires
        0 <= i <= s.len(),
    ensures
        i <= find_from(s, c, i) <= s.len(),
        find_from(s, c, i) < s.len() ==> s[find_from(s, c, i)] == c,
        forall|k: int| i <= k < find_from(s, c, i) ==> s[k] != c,
    decreases s.len() - i,
{
    if i < s.len() && s[i] != c {
        lemma_find_from_bounds(s, c, i + 1);
    }
}

/// The first-occurrence characterization pins `find_from` down: an in-range
/// position on `c` (or the end, when `c` is absent) with no `c` before it
/// is the one found.
proof fn lemma_find_from_char(s: Seq<char>, c: char, i: int, r: int)
    requires
        0 <= i <= r <= s.len(),
        forall|k: int| i <= k < r ==> s[k] != c,
        r < s.len() ==> s[r] == c,
    ensures
        find_from(s, c, i) == r,
    decreases r - i,
{
    if i < r {
        lemma_find_from_char(s, c, i + 1, r);
    }
}

/// The characterization of `trim_start_idx`: whitespace up to `r`, then a
/// non-whitespace character (or the end).
proof fn lemma_trim_start_char(s: Seq<char>, i: int, r: int)
    requires
        0 <= i <= r <= s.len(),
        forall|k: int| i <= k < r ==> is_ws(s[k]),
        r < s.len() ==> !is_ws(s[r]),
    ensures
        trim_start_idx(s, i) == r,
    decreases r - i,
{
    if i < r {
        lemma_trim_start_char(s, i + 1, r);
    }
}

/// The characterization of `trim_end_idx`: whitespace from `r` up to `i`,
/// preceded by a non-whitespace character (or the start).
proof fn lemma_trim_end_char(s: Seq<char>, i: int, r: int)
    requires
        0 <= r <= i <= s.len(),
        forall|k: int| r <= k < i ==> is_ws(s[k]),
        r > 0 ==> !is_ws(s[r - 1]),
    ensures
        trim_end_idx(s, i) == r,
    decreases i - r,
{
    if r < i {
        lemma_trim_end_char(s, i - 1, r);
    }
}

/// The sentinel, as a fresh string.
fn na_string() -> (r: String)
    ensures
        r@ == na_seq(),
{
    String::from_str("N/A")
}

/// Whether `c` is ASCII whitespace, executably.
fn is_ws_char(c: char) -> (r: bool)
    ensures
        r == is_ws(c),
{
    c == ' ' || c == '\t' || c == '\r' || c == '\n'
}

/// The position of the first occurrence of `c` within `s[lo..hi]` (in
/// characters), or `hi` when there is none.
fn find_char_in(s: &str, c: char, lo: usize, hi: usize) -> (r: usize)
    requires
        lo <= hi <= s@.len(),
    ensures
        lo <= r <= hi,
        r < hi ==> s@[r as int] == c,
        forall|k: int| lo <= k < r ==> s@[k] != c,
{
    let mut i: usize = lo;
    while i < hi
        invariant
            lo <= i <= hi <= s@.len(),
            forall|k: int| lo <= k < i ==> s@[k] != c,
        decreases hi - i,
    {
        if s.get_char(i) == c {
            return i;
        }
        i += 1;
    }
    hi
}

/// Whether `pat` occurs within `s[lo..hi]` (in characters).
fn contains_in_range(s: &str, lo: usize, hi: usize, pat: &str) -> (r: bool)
    requires
        lo <= hi <= s@.len(),
    ensures
        r == seq_contains(s@.subrange(lo as int, hi as int), pat@),
{
    let ghost hay = s@.subrange(lo as int, hi as int);
    let n: usize = hi - lo;
    let m: usize = pat.unicode_len();
    if m > n {
        proof {
            assert(forall|i: int| !matches_at(hay, pat@, i));
        }
        return false;
    }
    let mut i: usize = 0;
    while i <= n - m
        invariant
            lo <= hi <= s@.len(),
            hay == s@.subrange(lo as int, hi as int),
            n == hi - lo == hay.len(),
            m == pat@.len(),
            m <= n,
            i <= n - m + 1,
            forall|k: int| 0 <= k < i ==> !matches_at(hay, pat@, k),
        decreases n - m + 1 - i,
    {
        let mut j: usize = 0;
        let mut all: bool = true;
        while j < m
            invariant
                lo <= hi <= s@.len(),
                hay == s@.subrange(lo as int, hi as int),
                n == hi - lo == hay.len(),
                m == pat@.len(),
                i + m <= n,
                j <= m,
                all <==> forall|q: int| 0 <= q < j ==> hay[i + q] == pat@[q],
            decreases m - j,
        {
            proof {
                assert(hay[i + j] == s@[lo + i + j]);
            }
            if s.get_char(lo + i + j) != pat.get_char(j) {
                all = false;
                proof {
                    assert(hay[i + j] != pat@[j as int]);
                }
                j = m;
            } else {
                j += 1;
            }
        }
        if all {
            proof {
                assert(matches_at(hay, pat@, i as int));
            }
            return true;
        }
        i += 1;
    }
    proof {
        assert forall|k: int| !matches_at(hay, pat@, k) by {
            if 0 <= k <= n - m {
                assert(!matches_at(hay, pat@, k));
            }
        }
    }
    false
}

/// Extract the value of the line `s[lo..hi]`: the text after the line's
/// first colon, trimmed, or the sentinel when the line has no colon.
fn line_value_in(s: &str, lo: usize, hi: usize) -> (r: String)
    requires
        lo <= hi <= s@.len(),
    ensures
        r@ == line_value(s@.subrange(lo as int, hi as int)),
{
    let ghost line = s@.subrange(lo as int, hi as int);
    let c = find_char_in(s, ':', lo, hi);
    proof {
        lemma_find_from_char(line, ':', 0, c - lo);
    }
    if c == hi {
        return na_string();
    }
    let ghost tail = line.subrange(c - lo + 1, line.len() as int);
    proof {
        assert(tail =~= s@.subrange(c as int + 1, hi as int));
    }
    let mut a: usize = c + 1;
    while a < hi && is_ws_char(s.get_char(a))
        invariant
            c + 1 <= a <= hi <= s@.len(),
            forall|k: int| c + 1 <= k < a ==> is_ws(s@[k]),
        decreases hi - a,
    {
        a += 1;
    }
    let mut b: usize = hi;
    while b > a && is_ws_char(s.get_char(b - 1))
        invariant
            a <= b <= hi <= s@.len(),
            forall|k: int| b <= k < hi ==> is_ws(s@[k]),
        decreases b,
    {
        b -= 1;
    }
    proof {
        let a0 = a - (c + 1);
        let b0 = b - (c + 1);
        assert forall|k: int| 0 <= k < a0 implies is_ws(tail[k]) by {
            assert(tail[k] == s@[c + 1 + k]);
        }
        if a < hi {
            assert(tail[a0] == s@[a as int]);
        }
        lemma_trim_start_char(tail, 0, a0);
        if a == hi {
            assert(b == hi);
            assert(trim_start_idx(tail, 0) == tail.len());
            assert forall|k: int| 0 <= k < tail.len() implies is_ws(tail[k]) by {
                assert(tail[k] == s@[c + 1 + k]);
            }
            lemma_trim_end_char(tail, tail.len() as int, 0);
        } else {
            assert forall|k: int| b0 <= k < tail.len() implies is_ws(tail[k]) by {
                assert(tail[k] == s@[c + 1 + k]);
            }
            assert(b > a);
            assert(!is_ws(s@[b - 1]));
            assert(tail[b0 - 1] == s@[b - 1]);
            lemma_trim_end_char(tail, tail.len() as int, b0);
        }
    }
    let piece = s.substring_char(a, b);
    proof {
        if a == hi {
            assert(trimmed(tail) =~= s@.subrange(a as int, b as int));
        } else {
            assert(trimmed(tail) =~= s@.subrange(a as int, b as int));
        }
    }
    piece.to_owned()
}

/// Extract the UPS temperature from the external tool's output.  `None`
/// (the tool failed to run or exited non-zero) yields the sentinel; so
/// does output without the key.  Otherwise the result is the first keyed
/// line's value: the text after its first colon, trimmed.
pub fn parse_ups_temp(output: Option<&str>) -> (r: String)
    ensures
        r@ == match output {
            Some(s) => ups_value(s@),
            None => na_seq(),
        },
{
    let s: &str = match output {
        Some(s) => s,
        None => {
            return na_string();
        },
    };
    let n: usize = s.unicode_len();
    let mut start: usize = 0;
    proof {
        assert(s@.subrange(0, n as int) =~= s@);
    }
    loop
        invariant
            output == Some(s),
            start <= n == s@.len(),
            ups_value(s@) == ups_value(s@.subrange(start as int, n as int)),
        decreases n - start,
    {
        let ghost suf = s@.subrange(start as int, n as int);
        if start == n {
            proof {
                assert(suf.len() == 0);
            }
            return na_string();
        }
        let j = find_char_in(s, '\n', start, n);
        proof {
            lemma_find_from_char(suf, '\n', 0, j - start);
            assert(suf.subrange(0, j - start) =~= s@.subrange(start as int, j as int));
        }
        if contains_in_range(s, start, j, "ups.temperature") {
            proof {
                assert(has_key(suf.subrange(0, j - start)));
            }
            let r = line_value_in(s, start, j);
            proof {
                assert(ups_value(suf) == line_value(suf.subrange(0, j - start)));
            }
            return r;
        }
        if j == n {
            proof {
                assert(!has_key(suf.subrange(0, j - start)));
                assert(ups_value(suf) == na_seq());
            }
            return na_string();
        }
        proof {
            assert(suf.subrange(j - start + 1, suf.len() as int) =~= s@.subrange(
                j as int + 1,
                n as int,
            ));
        }
        start = j + 1;
    }
}

} // verus!
