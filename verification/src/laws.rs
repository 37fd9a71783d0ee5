//! What holds of the stack operations taken together, stated over the model
//! that their contracts use.

use vstd::prelude::*;
use crate::model::{
    lemma_pushed_parts, pop_results, popped, popped_times, pushed, pushed_all, top_of,
};

verus! {

/// After a push onto an empty stack, the top is the value pushed.
pub proof fn lemma_top_after_first_push(v: i32)
    ensures
        top_of(pushed(Seq::empty(), v)) == Some(v),
{
}

/// A pop that follows a push returns the value pushed and leaves the stack
/// as it was before the push.
pub proof fn lemma_pop_after_push(s: Seq<i32>, v: i32)
    ensures
        top_of(pushed(s, v)) == Some(v),
        popped(pushed(s, v)) == s,
{
    lemma_pushed_parts(s, v);
}

/// The top depends on the contents alone: whatever `top` returned for a
/// stack, it returns again for as long as the contents stay the same.
pub proof fn lemma_top_repeatable(s: Seq<i32>, first: Option<i32>, second: Option<i32>)
    requires
        first == top_of(s),
        second == top_of(s),
    ensures
        first == second,
{
}

/// Pushing `vs` one by one puts its values on top of `s` in reverse order.
pub proof fn lemma_pushed_all_reverses(s: Seq<i32>, vs: Seq<i32>)
    ensures
        pushed_all(s, vs) == vs.reverse() + s,
    decreases vs.len(),
{
    if vs.len() == 0 {
        assert(vs.reverse() + s =~= s);
    } else {
        let rest = vs.drop_first();
        lemma_pushed_all_reverses(pushed(s, vs[0]), rest);
        assert(rest.reverse() + pushed(s, vs[0]) =~= vs.reverse() + s);
    }
}

/// Popping as many times as `above` is long, from a stack that holds `above`
/// on top of `s`, returns the values of `above` from its first to its last
/// and leaves `s`.
proof fn lemma_pops_return_what_is_above(above: Seq<i32>, s: Seq<i32>)
    ensures
        pop_results(above + s, above.len()) == above.map_values(|v: i32| Some(v)),
        popped_times(above + s, above.len()) == s,
    decreases above.len(),
{
    let whole = above + s;
    let wrapped = above.map_values(|v: i32| Some(v));
    if above.len() == 0 {
        assert(whole =~= s);
    } else {
        let lower = above.drop_first();
        assert(popped(whole) =~= lower + s);
        lemma_pops_return_what_is_above(lower, s);
        assert(seq![Some(above[0])] + lower.map_values(|v: i32| Some(v)) =~= wrapped);
    }
}

/// Last in, first out: after the values of `vs` have been pushed one by one,
/// as many pops return them in the reverse order, each as `Some`, and leave
/// the stack as it was before the first push.
pub proof fn lemma_pops_reverse_pushes(s: Seq<i32>, vs: Seq<i32>)
    ensures
        pop_results(pushed_all(s, vs), vs.len()) == vs.reverse().map_values(|v: i32| Some(v)),
        popped_times(pushed_all(s, vs), vs.len()) == s,
{
    lemma_pushed_all_reverses(s, vs);
    lemma_pops_return_what_is_above(vs.reverse(), s);
}

} // verus!
