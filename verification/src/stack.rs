//! The stack itself and its four operations.

use vstd::prelude::*;
use crate::model::{lemma_pushed_parts, popped, pushed, top_of};

verus! {

/// One element of the chain, together with everything below it.
#[derive(Debug)]
struct Node {
    elem: i32,
    next: Option<Box<Node>>,
}

/// A stack of `i32` values. Its view lists the values from the top down.
#[derive(Debug)]
pub struct Stack {
    head: Option<Box<Node>>,
}

/// The values held by a chain, first node first.
spec fn chain_values(link: Option<Box<Node>>) -> Seq<i32>
    decreases link,
{
    match link {
        None => Seq::empty(),
        Some(node) => pushed(chain_values(node.next), node.elem),
    }
}

impl View for Stack {
    type V = Seq<i32>;

    closed spec fn view(&self) -> Seq<i32> {
        chain_values(self.head)
    }
}

/// Two chains that hold the same values are the same chain.
proof fn lemma_chain_values_injective(a: Option<Box<Node>>, b: Option<Box<Node>>)
    requires
        chain_values(a) == chain_values(b),
    ensures
        a == b,
    decreases a,
{
    match (a, b) {
        (Some(x), Some(y)) => {
            lemma_pushed_parts(chain_values(x.next), x.elem);
            lemma_pushed_parts(chain_values(y.next), y.elem);
            lemma_chain_values_injective(x.next, y.next);
        },
        (Some(x), None) => {
            lemma_pushed_parts(chain_values(x.next), x.elem);
        },
        (None, Some(y)) => {
            lemma_pushed_parts(chain_values(y.next), y.elem);
        },
        (None, None) => {},
    }
}

/// A stack is determined by its contents: two stacks are equal exactly when
/// their views are.
pub proof fn lemma_equal_views_equal_stacks(a: Stack, b: Stack)
    ensures
        (a@ == b@) <==> (a == b),
{
    if a@ == b@ {
        lemma_chain_values_injective(a.head, b.head);
    }
}

impl PartialEq for Stack {
    /// Compares two stacks value by value, from the top down.
    fn eq(&self, other: &Self) -> (r: bool) {
        let mut a = &self.head;
        let mut b = &other.head;
        loop
            invariant
                (self@ == other@) <==> (chain_values(*a) == chain_values(*b)),
            decreases *a,
        {
            match (a, b) {
                (None, None) => {
                    return true;
                },
                (Some(x), Some(y)) => {
                    proof {
                        lemma_pushed_parts(chain_values(x.next), x.elem);
                        lemma_pushed_parts(chain_values(y.next), y.elem);
                    }
                    if x.elem != y.elem {
                        return false;
                    }
                    a = &x.next;
                    b = &y.next;
                },
                (Some(x), None) => {
                    proof {
                        lemma_pushed_parts(chain_values(x.next), x.elem);
                    }
                    return false;
                },
                (None, Some(y)) => {
                    proof {
                        lemma_pushed_parts(chain_values(y.next), y.elem);
                    }
                    return false;
                },
            }
        }
    }
}

impl vstd::std_specs::cmp::PartialEqSpecImpl for Stack {
    open spec fn obeys_eq_spec() -> bool {
        true
    }

    /// `==` on stacks means that they hold the same values in the same
    /// order.
    open spec fn eq_spec(&self, other: &Self) -> bool {
        self@ == other@
    }
}

/// Creates a stack that holds nothing.
pub fn empty_stack() -> (s: Stack)
    ensures
        s@ == Seq::<i32>::empty(),
{
    Stack { head: None }
}

/// Removes the top value and returns it. An empty stack gives `None` and
/// stays as it was.
pub fn pop(s: &mut Stack) -> (r: Option<i32>)
    ensures
        r == top_of(old(s)@),
        final(s)@ == popped(old(s)@),
{
    match s.head.take() {
        None => None,
        Some(node) => {
            let node = *node;
            proof {
                lemma_pushed_parts(chain_values(node.next), node.elem);
            }
            s.head = node.next;
            Some(node.elem)
        },
    }
}

/// Returns the top value without removing it, or `None` where the stack is
/// empty.
pub fn top(s: &Stack) -> (r: Option<i32>)
    ensures
        r == top_of(s@),
{
    match &s.head {
        None => None,
        Some(node) => Some(node.elem),
    }
}

/// Puts `elem` on top of the stack. The values already held move into the
/// new node unchanged.
pub fn push(s: &mut Stack, elem: i32)
    ensures
        final(s)@ == pushed(old(s)@, elem),
{
    let next = s.head.take();
    let newtop = Box::new(Node { elem, next });
    s.head = Some(newtop);
}

} // verus!
