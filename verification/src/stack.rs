//! A LIFO stack of `i32` over an exclusively owned singly linked chain,
//! the first cut of the same exercise as [`crate::bad_stack`], kept as its own module.
//!
//! The abstract model is the sequence of elements from the top down, so
//! `self@[0]` is the element `pop` removes next.

use vstd::prelude::*;

verus! {

/// A LIFO stack of `i32`, holding the head link of an owned chain.
pub struct Stack {
    head: Link,
}

enum Link {
    Empty,
    More(Box<Node>),
}

struct Node {
    element: i32,
    next: Link,
}

/// The sequence of elements stored in the chain starting at `link`,
/// from the head of the chain to its end.
spec fn link_seq(link: Link) -> Seq<i32>
    decreases link,
{
    match link {
        Link::Empty => Seq::empty(),
        Link::More(node) => seq![node.element] + link_seq(node.next),
    }
}

/// Detaches the chain behind `link`, leaving an empty link in its place.
fn link_take(link: &mut Link) -> (taken: Link)
    ensures
        taken == *old(link),
        *final(link) is Empty,
{
    let mut taken = Link::Empty;
    core::mem::swap(link, &mut taken);
    taken
}

impl View for Stack {
    type V = Seq<i32>;

    /// A stack is modelled as the sequence of its elements, top first.
    closed spec fn view(&self) -> Seq<i32> {
        link_seq(self.head)
    }
}

impl Stack {
    /// Creates an empty stack.
    pub fn new() -> (stack: Self)
        ensures
            stack@ == Seq::<i32>::empty(),
    {
        Stack { head: Link::Empty }
    }

    /// Pushes `element` on top of the stack.
    pub fn push(&mut self, element: i32)
        ensures
            final(self)@ == seq![element] + old(self)@,
    {
        let new_node = Box::new(Node { element, next: link_take(&mut self.head) });
        self.head = Link::More(new_node);
    }

    /// Removes and returns the top element; `None` on an empty stack.
    pub fn pop(&mut self) -> (popped: Option<i32>)
        ensures
            old(self)@.len() == 0 ==> popped is None && final(self)@ == old(self)@,
            old(self)@.len() > 0 ==> popped == Some(old(self)@[0])
                && final(self)@ == old(self)@.skip(1),
    {
        match link_take(&mut self.head) {
            Link::Empty => None,
            Link::More(node) => {
                let boxed = *node;
                self.head = boxed.next;
                Some(boxed.element)
            }
        }
    }

    /// Detaches and frees every node in turn, leaving the stack empty.
    /// The chain is walked by a loop, so arbitrarily long stacks are torn
    /// down without growing the call stack.
    pub fn clear(&mut self)
        ensures
            final(self)@ == Seq::<i32>::empty(),
    {
        let mut cur_link = link_take(&mut self.head);
        loop
            invariant
                final(self)@ == Seq::<i32>::empty(),
            decreases link_seq(cur_link).len(),
        {
            match cur_link {
                Link::Empty => {
                    break;
                }
                Link::More(mut node) => {
                    cur_link = link_take(&mut node.next);
                }
            }
        }
    }
}

} // verus!
