//! Text helpers on character sequences: the view of a `&str` is its sequence
//! of characters, and every function here is stated over that view.

use vstd::prelude::*;
use vstd::string::*;

verus! {

/// The position of the first occurrence of `c` in `s`, or the length of `s`
/// where `c` does not occur.
pub open spec fn first_occurrence(s: Seq<char>, c: char) -> int
    decreases s.len(),
{
    if s.len() == 0 {
        0
    } else if s[0] == c {
        0
    } else {
        1 + first_occurrence(s.drop_first(), c)
    }
}

/// How often `c` occurs in `s`.
pub open spec fn occurrences(s: Seq<char>, c: char) -> nat
    decreases s.len(),
{
    if s.len() == 0 {
        0
    } else {
        occurrences(s.drop_last(), c) + if s.last() == c {
            1nat
        } else {
            0nat
        }
    }
}

/// `s` ends with `suffix`.
pub open spec fn has_suffix(s: Seq<char>, suffix: Seq<char>) -> bool {
    suffix.len() <= s.len() && s.subrange(s.len() - suffix.len(), s.len() as int) == suffix
}

/// `pattern` stands in `s` at position `at`.
pub open spec fn occurs_at(s: Seq<char>, pattern: Seq<char>, at: int) -> bool {
    0 <= at && at + pattern.len() <= s.len() && s.subrange(at, at + pattern.len()) == pattern
}

/// `pattern` stands somewhere in `s`.
pub open spec fn has_infix(s: Seq<char>, pattern: Seq<char>) -> bool {
    exists|at: int| occurs_at(s, pattern, at)
}

/// What `first_occurrence` returns is the least position that holds `c`.
pub proof fn lemma_first_occurrence(s: Seq<char>, c: char)
    ensures
        0 <= first_occurrence(s, c) <= s.len(),
        forall|i: int| 0 <= i < first_occurrence(s, c) ==> s[i] != c,
        first_occurrence(s, c) < s.len() ==> s[first_occurrence(s, c)] == c,
    decreases s.len(),
{
    if s.len() > 0 && s[0] != c {
        let rest = s.drop_first();
        lemma_first_occurrence(rest, c);
        assert forall|i: int| 0 <= i < first_occurrence(s, c) implies s[i] != c by {
            if i > 0 {
                assert(rest[i - 1] == s[i]);
            }
        }
    }
}

/// A position that holds `c` with none before it is the first occurrence.
pub proof fn lemma_first_occurrence_is(s: Seq<char>, c: char, n: int)
    requires
        0 <= n <= s.len(),
        forall|i: int| 0 <= i < n ==> s[i] != c,
        n < s.len() ==> s[n] == c,
    ensures
        first_occurrence(s, c) == n,
{
    lemma_first_occurrence(s, c);
    let f = first_occurrence(s, c);
    if f < n {
        assert(s[f] != c);
    }
}

/// The characters of `s`, one by one.
pub fn chars_of(s: &str) -> (v: Vec<char>)
    ensures
        v@ == s@,
{
    let mut v: Vec<char> = Vec::new();
    for c in it: s.chars()
        invariant
            it.seq() == s@,
            v@ == s@.take(it.index()),
    {
        v.push(c);
        assert(s@.take(it.index() + 1) == s@.take(it.index()).push(c));
    }
    assert(s@.take(s@.len() as int) == s@);
    v
}

/// Whether two texts hold the same characters.
pub fn same_text(a: &str, b: &str) -> (same: bool)
    ensures
        same == (a@ == b@),
{
    let x = chars_of(a);
    let y = chars_of(b);
    if x.len() != y.len() {
        return false;
    }
    let mut i: usize = 0;
    while i < x.len()
        invariant
            i <= x.len(),
            x.len() == y.len(),
            x@ == a@,
            y@ == b@,
            forall|k: int| 0 <= k < i ==> x@[k] == y@[k],
        decreases x.len() - i,
    {
        if x[i] != y[i] {
            return false;
        }
        i = i + 1;
    }
    assert(a@ =~= b@);
    true
}

/// The position of the first `c` in `s`, counted in characters; the length
/// of `s` where there is none.
pub fn find_char(s: &Vec<char>, c: char) -> (n: usize)
    ensures
        n == first_occurrence(s@, c),
        n <= s@.len(),
{
    let mut n: usize = 0;
    while n < s.len() && s[n] != c
        invariant
            n <= s.len(),
            forall|i: int| 0 <= i < n ==> s@[i] != c,
        decreases s.len() - n,
    {
        n = n + 1;
    }
    proof {
        lemma_first_occurrence_is(s@, c, n as int);
    }
    n
}

/// Whether `pattern` stands in `s` at position `at`.
pub fn matches_at(s: &Vec<char>, pattern: &Vec<char>, at: usize) -> (found: bool)
    ensures
        found == occurs_at(s@, pattern@, at as int),
{
    if pattern.len() > s.len() || at > s.len() - pattern.len() {
        return false;
    }
    let mut i: usize = 0;
    while i < pattern.len()
        invariant
            i <= pattern.len(),
            at + pattern.len() <= s.len(),
            forall|k: int| 0 <= k < i ==> s@[at + k] == pattern@[k],
        decreases pattern.len() - i,
    {
        if s[at + i] != pattern[i] {
            assert(s@.subrange(at as int, at + pattern.len())[i as int] != pattern@[i as int]);
            return false;
        }
        i = i + 1;
    }
    assert(s@.subrange(at as int, at + pattern.len()) =~= pattern@);
    true
}

/// Whether `s` ends with `suffix`.
pub fn ends_with(s: &str, suffix: &str) -> (found: bool)
    ensures
        found == has_suffix(s@, suffix@),
{
    let x = chars_of(s);
    let y = chars_of(suffix);
    if y.len() > x.len() {
        return false;
    }
    matches_at(&x, &y, x.len() - y.len())
}

/// Whether `pattern` stands somewhere in `s`.
pub fn contains(s: &str, pattern: &str) -> (found: bool)
    ensures
        found == has_infix(s@, pattern@),
{
    let x = chars_of(s);
    let y = chars_of(pattern);
    if y.len() > x.len() {
        assert forall|at: int| !occurs_at(x@, y@, at) by {}
        return false;
    }
    let last: usize = x.len() - y.len();
    let mut at: usize = 0;
    while at < last
        invariant
            last == x.len() - y.len(),
            at <= last,
            x@ == s@,
            y@ == pattern@,
            forall|k: int| 0 <= k < at ==> !occurs_at(x@, y@, k),
        decreases last - at,
    {
        if matches_at(&x, &y, at) {
            return true;
        }
        at = at + 1;
    }
    matches_at(&x, &y, last)
}

/// How often `c` occurs in `s`, counted up to `limit`: the result is the
/// number of occurrences where that is at most `limit`, and `limit + 1`
/// where it is more.
pub fn count_char(s: &str, c: char, limit: usize) -> (n: usize)
    requires
        limit < usize::MAX,
    ensures
        occurrences(s@, c) <= limit ==> n == occurrences(s@, c),
        occurrences(s@, c) > limit ==> n == limit + 1,
{
    let x = chars_of(s);
    let mut n: usize = 0;
    let mut i: usize = 0;
    while i < x.len()
        invariant
            i <= x.len(),
            x@ == s@,
            limit < usize::MAX,
            n <= limit + 1,
            occurrences(x@.take(i as int), c) <= limit ==> n == occurrences(x@.take(i as int), c),
            occurrences(x@.take(i as int), c) > limit ==> n == limit + 1,
        decreases x.len() - i,
    {
        assert(x@.take(i + 1).drop_last() == x@.take(i as int));
        if x[i] == c && n <= limit {
            n = n + 1;
        }
        i = i + 1;
    }
    assert(x@.take(x@.len() as int) == x@);
    n
}

/// The text of `s` before its first `c`; all of `s` where it holds no `c`.
pub fn text_before(s: &str, c: char) -> (head: String)
    ensures
        head@ == s@.take(first_occurrence(s@, c)),
{
    let x = chars_of(s);
    let n = find_char(&x, c);
    s.substring_char(0, n).to_owned()
}

/// `a` followed by `b`.
pub fn joined(a: &str, b: &str) -> (text: String)
    ensures
        text@ == a@ + b@,
{
    a.to_owned().concat(b)
}

} // verus!
