//! A process invocation as plain data: a program and its argument list.

use vstd::prelude::*;

use crate::accumulate::views;

verus! {

/// A program to launch and the arguments to hand it, in order.
#[derive(Debug)]
pub struct CommandSpec {
    pub program: String,
    pub args: Vec<String>,
}

impl CommandSpec {
    /// This invocation launches `program` with exactly `args`.
    pub open spec fn is(self, program: Seq<char>, args: Seq<Seq<char>>) -> bool {
        self.program@ == program && views(self.args@) == args
    }
}

/// Appends copies of `extra` to `args`, in order.
pub fn extend_args(args: &mut Vec<String>, extra: &Vec<String>)
    ensures
        views(final(args)@) == views(old(args)@) + views(extra@),
{
    let ghost start = views(args@);
    let mut i: usize = 0;
    while i < extra.len()
        invariant
            i <= extra@.len(),
            views(args@) == start + views(extra@).take(i as int),
        decreases extra@.len() - i,
    {
        let ghost prev = args@;
        args.push(extra[i].clone());
        assert(views(args@) =~= views(prev).push(extra@[i as int]@));
        assert(views(extra@).take(i + 1) =~= views(extra@).take(i as int).push(extra@[i as int]@));
        assert(views(args@) =~= start + views(extra@).take(i + 1));
        i = i + 1;
    }
    assert(views(extra@).take(extra@.len() as int) =~= views(extra@));
}

/// A copy of a list of strings.
pub fn copy_strings(v: &Vec<String>) -> (r: Vec<String>)
    ensures
        views(r@) == views(v@),
{
    let mut r: Vec<String> = Vec::new();
    extend_args(&mut r, v);
    assert(views(r@) =~= views(v@));
    r
}

/// A copy of the strings of `v` from index `from` on.
pub fn strings_from(v: &Vec<String>, from: usize) -> (r: Vec<String>)
    requires
        from <= v@.len(),
    ensures
        views(r@) == views(v@).subrange(from as int, v@.len() as int),
{
    let mut r: Vec<String> = Vec::new();
    let mut i = from;
    while i < v.len()
        invariant
            from <= i <= v@.len(),
            views(r@) == views(v@).subrange(from as int, i as int),
        decreases v@.len() - i,
    {
        let ghost prev = r@;
        r.push(v[i].clone());
        assert(views(r@) =~= views(prev).push(v@[i as int]@));
        assert(views(v@).subrange(from as int, i + 1) =~= views(v@).subrange(from as int, i as int).push(v@[i as int]@));
        i = i + 1;
    }
    r
}

} // verus!
