//! The mathematical model of a stack: a sequence of integers whose entry 0
//! is the top. The contracts of the executable operations are stated over
//! the functions defined here.

use vstd::prelude::*;

verus! {

/// The contents after `v` has been pushed onto `s`.
pub open spec fn pushed(s: Seq<i32>, v: i32) -> Seq<i32> {
    seq![v] + s
}

/// What was pushed last can be read back: the result of a push is not
/// empty, starts with the value pushed, and continues with the old contents.
pub proof fn lemma_pushed_parts(s: Seq<i32>, v: i32)
    ensures
        pushed(s, v).len() == s.len() + 1,
        pushed(s, v)[0] == v,
        pushed(s, v).drop_first() == s,
{
    assert(pushed(s, v).drop_first() =~= s);
}

/// The value on top of `s`, if it holds any.
pub open spec fn top_of(s: Seq<i32>) -> Option<i32> {
    if s.len() == 0 {
        None
    } else {
        Some(s[0])
    }
}

/// The contents after one pop: `s` without its top, or `s` itself where
/// there is nothing to remove.
pub open spec fn popped(s: Seq<i32>) -> Seq<i32> {
    if s.len() == 0 {
        s
    } else {
        s.drop_first()
    }
}

/// The contents after the values of `vs` have been pushed onto `s` one by
/// one, `vs[0]` first.
pub open spec fn pushed_all(s: Seq<i32>, vs: Seq<i32>) -> Seq<i32>
    decreases vs.len(),
{
    if vs.len() == 0 {
        s
    } else {
        pushed_all(pushed(s, vs[0]), vs.drop_first())
    }
}

/// What `n` pops in a row return, the first pop's result first.
pub open spec fn pop_results(s: Seq<i32>, n: nat) -> Seq<Option<i32>>
    decreases n,
{
    if n == 0 {
        Seq::empty()
    } else {
        seq![top_of(s)] + pop_results(popped(s), (n - 1) as nat)
    }
}

/// The contents after `n` pops in a row.
pub open spec fn popped_times(s: Seq<i32>, n: nat) -> Seq<i32>
    decreases n,
{
    if n == 0 {
        s
    } else {
        popped_times(popped(s), (n - 1) as nat)
    }
}

} // verus!
