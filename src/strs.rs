//! Character-level string predicates shared by the protocol modules.

use vstd::prelude::*;

verus! {

/// `suf` is a suffix of `s`.
pub open spec fn has_suffix(s: Seq<char>, suf: Seq<char>) -> bool {
    suf.len() <= s.len() && s.subrange(s.len() - suf.len(), s.len() as int) == suf
}

/// `pre` is a prefix of `s`.
pub open spec fn has_prefix(s: Seq<char>, pre: Seq<char>) -> bool {
    pre.len() <= s.len() && s.subrange(0, pre.len() as int) == pre
}

/// Two consecutive dots occur somewhere in `s`.
pub open spec fn has_dot_dot(s: Seq<char>) -> bool {
    exists|i: int| 0 <= i && i + 1 < s.len() && #[trigger] s[i] == '.' && s[i + 1] == '.'
}

/// `s` with every leading `c` removed.
pub open spec fn strip_leading_char(s: Seq<char>, c: char) -> Seq<char>
    decreases s.len(),
{
    if s.len() > 0 && s[0] == c {
        strip_leading_char(s.drop_first(), c)
    } else {
        s
    }
}

/// `s` with every trailing `c` removed.
pub open spec fn strip_trailing_char(s: Seq<char>, c: char) -> Seq<char>
    decreases s.len(),
{
    if s.len() > 0 && s.last() == c {
        strip_trailing_char(s.drop_last(), c)
    } else {
        s
    }
}

/// Position of the first character of `s` at or after which no leading `c`
/// remains.
fn leading_run_end(s: &str, c: char) -> (r: usize)
    ensures
        r <= s@.len(),
        strip_leading_char(s@, c) == s@.subrange(r as int, s@.len() as int),
{
    let ghost u = s@;
    let n = s.unicode_len();
    let mut start: usize = 0;
    assert(u.subrange(0, n as int) =~= u);
    while start < n && s.get_char(start) == c
        invariant
            n == u.len(),
            u == s@,
            start <= n,
            strip_leading_char(u, c) == strip_leading_char(u.subrange(start as int, n as int), c),
        decreases n - start,
    {
        assert(u.subrange(start as int, n as int).drop_first() =~= u.subrange(start + 1, n as int));
        start = start + 1;
    }
    start
}

/// `s` without its leading run of `c`.
pub fn trim_start_char(s: &str, c: char) -> (r: &str)
    ensures
        r@ == strip_leading_char(s@, c),
{
    let start = leading_run_end(s, c);
    s.substring_char(start, s.unicode_len())
}

/// `s` without its leading and trailing runs of `c`.
pub fn trim_char(s: &str, c: char) -> (r: &str)
    ensures
        r@ == strip_trailing_char(strip_leading_char(s@, c), c),
{
    let ghost u = s@;
    let n = s.unicode_len();
    let start = leading_run_end(s, c);
    let mut end: usize = n;
    while end > start && s.get_char(end - 1) == c
        invariant
            n == u.len(),
            u == s@,
            start <= end <= n,
            strip_trailing_char(u.subrange(start as int, n as int), c) == strip_trailing_char(
                u.subrange(start as int, end as int),
                c,
            ),
        decreases end - start,
    {
        assert(u.subrange(start as int, end as int).drop_last() =~= u.subrange(
            start as int,
            end - 1,
        ));
        end = end - 1;
    }
    s.substring_char(start, end)
}

/// Whether `s` ends with `suf`, compared character by character.
pub fn ends_with(s: &str, suf: &str) -> (r: bool)
    ensures
        r == has_suffix(s@, suf@),
{
    let n = s.unicode_len();
    let m = suf.unicode_len();
    if m > n {
        return false;
    }
    let off = n - m;
    let mut j: usize = 0;
    while j < m
        invariant
            n == s@.len(),
            m == suf@.len(),
            m <= n,
            off == n - m,
            j <= m,
            forall|k: int| 0 <= k < j ==> s@[off + k] == suf@[k],
        decreases m - j,
    {
        if s.get_char(off + j) != suf.get_char(j) {
            assert(s@.subrange(off as int, n as int)[j as int] != suf@[j as int]);
            return false;
        }
        j = j + 1;
    }
    assert(s@.subrange(off as int, n as int) =~= suf@);
    true
}

/// Whether `s` starts with `pre`, compared character by character.
pub fn starts_with(s: &str, pre: &str) -> (r: bool)
    ensures
        r == has_prefix(s@, pre@),
{
    let n = s.unicode_len();
    let m = pre.unicode_len();
    if m > n {
        return false;
    }
    let mut j: usize = 0;
    while j < m
        invariant
            n == s@.len(),
            m == pre@.len(),
            m <= n,
            j <= m,
            forall|k: int| 0 <= k < j ==> s@[k] == pre@[k],
        decreases m - j,
    {
        if s.get_char(j) != pre.get_char(j) {
            assert(s@.subrange(0, m as int)[j as int] != pre@[j as int]);
            return false;
        }
        j = j + 1;
    }
    assert(s@.subrange(0, m as int) =~= pre@);
    true
}

/// Whether two consecutive dots occur in `s`.
pub fn contains_dot_dot(s: &str) -> (r: bool)
    ensures
        r == has_dot_dot(s@),
{
    let n = s.unicode_len();
    if n < 2 {
        return false;
    }
    let mut i: usize = 0;
    while i + 1 < n
        invariant
            n == s@.len(),
            n >= 2,
            i + 1 <= n,
            forall|k: int| 0 <= k < i ==> !(#[trigger] s@[k] == '.' && s@[k + 1] == '.'),
        decreases n - i,
    {
        if s.get_char(i) == '.' && s.get_char(i + 1) == '.' {
            return true;
        }
        i = i + 1;
    }
    false
}

/// Whether `a` and `b` hold the same characters.
pub fn text_eq(a: &str, b: &str) -> (r: bool)
    ensures
        r == (a@ == b@),
{
    if a.unicode_len() != b.unicode_len() {
        return false;
    }
    assert(a@.subrange(0, a@.len() as int) =~= a@);
    starts_with(a, b)
}

} // verus!
