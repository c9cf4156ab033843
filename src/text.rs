//! Character-level helpers on strings, stated over their views as `Seq<char>`.

use vstd::prelude::*;

verus! {

/// `pattern` occurs in `s` as a contiguous run starting at `start`.
pub open spec fn occurs_at(s: Seq<char>, pattern: Seq<char>, start: int) -> bool {
    0 <= start && start + pattern.len() <= s.len() && s.subrange(start, start + pattern.len())
        == pattern
}

/// `pattern` occurs somewhere in `s` (every string holds the empty pattern).
pub open spec fn has_substring(s: Seq<char>, pattern: Seq<char>) -> bool {
    exists|start: int| occurs_at(s, pattern, start)
}

/// Copies the characters of `s` into a vector, so that later reads are direct.
pub fn chars_of(s: &str) -> (r: Vec<char>)
    ensures
        r@ == s@,
{
    let n = s.unicode_len();
    let mut r: Vec<char> = Vec::new();
    let mut i: usize = 0;
    while i < n
        invariant
            n == s@.len(),
            i <= n,
            r@ == s@.subrange(0, i as int),
        decreases n - i,
    {
        r.push(s.get_char(i));
        i = i + 1;
    }
    assert(r@ =~= s@);
    r
}

/// Whether `pattern` occurs in `s` at `start`.
fn occurs_at_exec(s: &Vec<char>, pattern: &Vec<char>, start: usize) -> (r: bool)
    requires
        start + pattern@.len() <= s@.len(),
    ensures
        r == occurs_at(s@, pattern@, start as int),
{
    let _len = s.len();
    let mut j: usize = 0;
    while j < pattern.len()
        invariant
            start + pattern@.len() <= s@.len(),
            s@.len() <= usize::MAX,
            j <= pattern@.len(),
            forall|k: int| 0 <= k < j ==> s@[start + k] == pattern@[k],
        decreases pattern@.len() - j,
    {
        if s[start + j] != pattern[j] {
            assert(s@.subrange(start as int, start + pattern@.len())[j as int] != pattern@[j as int]);
            return false;
        }
        j = j + 1;
    }
    assert(s@.subrange(start as int, start + pattern@.len()) =~= pattern@);
    true
}

/// Whether `pattern` occurs anywhere in `s`: the plain substring test that decides
/// which changed paths count as test files.
pub fn matches_pattern(s: &str, pattern: &str) -> (r: bool)
    ensures
        r == has_substring(s@, pattern@),
{
    let sc = chars_of(s);
    let pc = chars_of(pattern);
    if pc.len() > sc.len() {
        assert forall|start: int| !occurs_at(s@, pattern@, start) by {}
        return false;
    }
    let last = sc.len() - pc.len();
    let mut start: usize = 0;
    loop
        invariant
            sc@ == s@,
            pc@ == pattern@,
            last == s@.len() - pattern@.len(),
            start <= last,
            forall|k: int| 0 <= k < start ==> !occurs_at(s@, pattern@, k),
        ensures
            forall|k: int| 0 <= k <= last ==> !occurs_at(s@, pattern@, k),
        decreases last - start,
    {
        if occurs_at_exec(&sc, &pc, start) {
            return true;
        }
        if start == last {
            break;
        }
        start = start + 1;
    }
    assert forall|k: int| !occurs_at(s@, pattern@, k) by {
        if 0 <= k <= last {
        }
    }
    false
}

/// Whether two strings hold the same characters.
pub fn same_text(a: &str, b: &str) -> (r: bool)
    ensures
        r == (a@ == b@),
{
    let ac = chars_of(a);
    let bc = chars_of(b);
    if ac.len() != bc.len() {
        return false;
    }
    let mut i: usize = 0;
    while i < ac.len()
        invariant
            ac@ == a@,
            bc@ == b@,
            ac@.len() == bc@.len(),
            i <= ac@.len(),
            forall|k: int| 0 <= k < i ==> ac@[k] == bc@[k],
        decreases ac@.len() - i,
    {
        if ac[i] != bc[i] {
            return false;
        }
        i = i + 1;
    }
    assert(ac@ =~= bc@);
    true
}

} // verus!
