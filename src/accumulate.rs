//! The accumulated file set: test-relevant paths gathered across the walk,
//! unique by value and kept in the order in which they were first seen.

use vstd::prelude::*;

use crate::text::{has_substring, matches_pattern, same_text};

verus! {

/// The character views of a sequence of strings.
pub open spec fn views(v: Seq<String>) -> Seq<Seq<char>> {
    v.map_values(|s: String| s@)
}

/// No path occurs twice.
pub open spec fn unique(paths: Seq<Seq<char>>) -> bool {
    forall|i: int, j: int| 0 <= i < paths.len() && 0 <= j < paths.len() && i != j ==> paths[i] != paths[j]
}

/// Every path holds the pattern.
pub open spec fn all_match(paths: Seq<Seq<char>>, pattern: Seq<char>) -> bool {
    forall|i: int| 0 <= i < paths.len() ==> has_substring(#[trigger] paths[i], pattern)
}

/// The set after folding in `changed`, one path at a time from the first: a path
/// is appended when it holds the pattern and is not yet present.
pub open spec fn fold_paths(acc: Seq<Seq<char>>, changed: Seq<Seq<char>>, pattern: Seq<char>) -> Seq<Seq<char>>
    decreases changed.len(),
{
    if changed.len() == 0 {
        acc
    } else {
        let before = fold_paths(acc, changed.drop_last(), pattern);
        let path = changed.last();
        if has_substring(path, pattern) && !before.contains(path) {
            before.push(path)
        } else {
            before
        }
    }
}

/// Whether `paths` holds a string with the characters of `path`.
pub fn contains_path(paths: &Vec<String>, path: &String) -> (r: bool)
    ensures
        r == views(paths@).contains(path@),
{
    let mut i: usize = 0;
    while i < paths.len()
        invariant
            i <= paths@.len(),
            forall|k: int| 0 <= k < i ==> paths@[k]@ != path@,
        decreases paths@.len() - i,
    {
        if same_text(paths[i].as_str(), path.as_str()) {
            assert(views(paths@)[i as int] == path@);
            return true;
        }
        i = i + 1;
    }
    assert forall|k: int| 0 <= k < views(paths@).len() implies views(paths@)[k] != path@ by {
        assert(views(paths@)[k] == paths@[k]@);
    }
    false
}

/// Folds the paths of one step into the accumulated set: each path of `changed`
/// that holds `pattern` and is not present yet is appended, in the order of
/// `changed`. Nothing is removed or moved.
pub fn fold(accumulated: &mut Vec<String>, changed: &Vec<String>, pattern: &str)
    ensures
        views(final(accumulated)@) == fold_paths(views(old(accumulated)@), views(changed@), pattern@),
{
    let ghost start = views(accumulated@);
    let mut i: usize = 0;
    while i < changed.len()
        invariant
            i <= changed@.len(),
            views(accumulated@) == fold_paths(start, views(changed@).take(i as int), pattern@),
        decreases changed@.len() - i,
    {
        let path = &changed[i];
        proof {
            assert(views(changed@).take(i + 1).drop_last() =~= views(changed@).take(i as int));
            assert(views(changed@).take(i + 1).last() == path@);
        }
        if matches_pattern(path.as_str(), pattern) && !contains_path(accumulated, path) {
            accumulated.push(path.clone());
            assert(views(accumulated@) =~= fold_paths(start, views(changed@).take(i as int), pattern@).push(path@));
        }
        i = i + 1;
    }
    assert(views(changed@).take(changed@.len() as int) =~= views(changed@));
}

/// Folding never drops or moves a path: the set before is a prefix of the set
/// after, so its size never shrinks along the walk.
pub proof fn lemma_fold_monotonic(acc: Seq<Seq<char>>, changed: Seq<Seq<char>>, pattern: Seq<char>)
    ensures
        acc.len() <= fold_paths(acc, changed, pattern).len(),
        forall|i: int| 0 <= i < acc.len() ==> #[trigger] fold_paths(acc, changed, pattern)[i] == acc[i],
    decreases changed.len(),
{
    if changed.len() > 0 {
        lemma_fold_monotonic(acc, changed.drop_last(), pattern);
    }
}

/// A path enters the set only if it was in `changed` and holds the pattern.
pub proof fn lemma_fold_filters(acc: Seq<Seq<char>>, changed: Seq<Seq<char>>, pattern: Seq<char>)
    ensures
        forall|x: Seq<char>| #[trigger] fold_paths(acc, changed, pattern).contains(x) ==> acc.contains(x)
            || (changed.contains(x) && has_substring(x, pattern)),
    decreases changed.len(),
{
    if changed.len() > 0 {
        lemma_fold_filters(acc, changed.drop_last(), pattern);
        let before = fold_paths(acc, changed.drop_last(), pattern);
        assert forall|x: Seq<char>| #[trigger] fold_paths(acc, changed, pattern).contains(x) implies acc.contains(x)
            || (changed.contains(x) && has_substring(x, pattern)) by {
            if before.contains(x) {
                if changed.drop_last().contains(x) {
                    let k = choose|k: int| 0 <= k < changed.drop_last().len() && changed.drop_last()[k] == x;
                    assert(changed[k] == x);
                }
            } else {
                assert(changed[changed.len() - 1] == x);
            }
        }
    }
}

/// Every changed path that holds the pattern is in the set afterwards.
pub proof fn lemma_fold_complete(acc: Seq<Seq<char>>, changed: Seq<Seq<char>>, pattern: Seq<char>)
    ensures
        forall|x: Seq<char>| #[trigger] changed.contains(x) && has_substring(x, pattern) ==> fold_paths(acc, changed, pattern).contains(x),
    decreases changed.len(),
{
    if changed.len() > 0 {
        lemma_fold_complete(acc, changed.drop_last(), pattern);
        let before = fold_paths(acc, changed.drop_last(), pattern);
        lemma_fold_monotonic(before, seq![changed.last()], pattern);
        assert forall|x: Seq<char>| #[trigger] changed.contains(x) && has_substring(x, pattern) implies fold_paths(acc, changed, pattern).contains(x) by {
            let k = choose|k: int| 0 <= k < changed.len() && changed[k] == x;
            if k < changed.len() - 1 {
                assert(changed.drop_last()[k] == x);
                assert(changed.drop_last().contains(x));
                let m = choose|m: int| 0 <= m < before.len() && before[m] == x;
                if has_substring(changed.last(), pattern) && !before.contains(changed.last()) {
                    assert(before.push(changed.last())[m] == x);
                }
            } else if !before.contains(x) {
                assert(before.push(x)[before.len() as int] == x);
            }
        }
    }
}

/// Folding in paths that hold the pattern only where they are already present
/// leaves the set as it is.
pub proof fn lemma_fold_absorbed(acc: Seq<Seq<char>>, changed: Seq<Seq<char>>, pattern: Seq<char>)
    requires
        forall|x: Seq<char>| #[trigger] changed.contains(x) && has_substring(x, pattern) ==> acc.contains(x),
    ensures
        fold_paths(acc, changed, pattern) == acc,
    decreases changed.len(),
{
    if changed.len() > 0 {
        assert forall|x: Seq<char>| #[trigger] changed.drop_last().contains(x) && has_substring(x, pattern) implies acc.contains(x) by {
            let k = choose|k: int| 0 <= k < changed.drop_last().len() && changed.drop_last()[k] == x;
            assert(changed[k] == x);
            assert(changed.contains(x));
        }
        lemma_fold_absorbed(acc, changed.drop_last(), pattern);
        assert(changed[changed.len() - 1] == changed.last());
        assert(changed.contains(changed.last()));
    }
}

/// Folding the same paths a second time changes nothing: the order that the
/// first fold produced is kept exactly.
pub proof fn lemma_fold_order_stable(acc: Seq<Seq<char>>, changed: Seq<Seq<char>>, pattern: Seq<char>)
    ensures
        fold_paths(fold_paths(acc, changed, pattern), changed, pattern) == fold_paths(acc, changed, pattern),
{
    lemma_fold_complete(acc, changed, pattern);
    lemma_fold_absorbed(fold_paths(acc, changed, pattern), changed, pattern);
}

/// Folding keeps the set free of duplicates and made of matching paths only.
pub proof fn lemma_fold_well_formed(acc: Seq<Seq<char>>, changed: Seq<Seq<char>>, pattern: Seq<char>)
    requires
        unique(acc),
        all_match(acc, pattern),
    ensures
        unique(fold_paths(acc, changed, pattern)),
        all_match(fold_paths(acc, changed, pattern), pattern),
    decreases changed.len(),
{
    if changed.len() > 0 {
        lemma_fold_well_formed(acc, changed.drop_last(), pattern);
        let before = fold_paths(acc, changed.drop_last(), pattern);
        let path = changed.last();
        if has_substring(path, pattern) && !before.contains(path) {
            let after = before.push(path);
            assert forall|i: int, j: int| 0 <= i < after.len() && 0 <= j < after.len() && i != j implies after[i] != after[j] by {
                if i == before.len() as int {
                    assert(before[j] == after[j]);
                } else if j == before.len() as int {
                    assert(before[i] == after[i]);
                }
            }
            assert forall|i: int| 0 <= i < after.len() implies has_substring(#[trigger] after[i], pattern) by {
                if i < before.len() {
                    assert(after[i] == before[i]);
                }
            }
        }
    }
}

} // verus!
