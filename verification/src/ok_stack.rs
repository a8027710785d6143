//! A generic LIFO stack over an exclusively owned singly linked chain.
//!
//! The abstract model of a stack is the sequence of its elements from the
//! top down, so `self@[0]` is the element `pop` removes next.

use vstd::prelude::*;

verus! {

/// A LIFO stack of `T`, holding the head of an owned chain of nodes.
pub struct Stack<T> {
    head: Link<T>,
}

type Link<T> = Option<Box<Node<T>>>;

struct Node<T> {
    element: T,
    next: Link<T>,
}

/// The sequence of elements stored in the chain starting at `link`,
/// from the head of the chain to its end.
spec fn link_seq<T>(link: Link<T>) -> Seq<T>
    decreases link,
{
    match link {
        None => Seq::empty(),
        Some(node) => seq![node.element] + link_seq(node.next),
    }
}

/// The sequence of elements stored in the chain starting at the borrowed
/// node `link`, from that node to the end of the chain.
spec fn ref_link_seq<T>(link: Option<&Node<T>>) -> Seq<T>
    decreases link,
{
    match link {
        None => Seq::empty(),
        Some(node) => seq![node.element] + link_seq(node.next),
    }
}

impl<T> View for Stack<T> {
    type V = Seq<T>;

    /// A stack is modelled as the sequence of its elements, top first.
    closed spec fn view(&self) -> Seq<T> {
        link_seq(self.head)
    }
}

impl<T> Stack<T> {
    /// Creates an empty stack.
    pub fn new() -> (stack: Self)
        ensures
            stack@ == Seq::<T>::empty(),
    {
        Stack { head: None }
    }

    /// Pushes `element` on top of the stack.
    pub fn push(&mut self, element: T)
        ensures
            final(self)@ == seq![element] + old(self)@,
    {
        let new_node = Box::new(Node { element, next: self.head.take() });
        self.head = Some(new_node);
    }

    /// Removes and returns the top element; `None` on an empty stack.
    pub fn pop(&mut self) -> (popped: Option<T>)
        ensures
            old(self)@.len() == 0 ==> popped is None && final(self)@ == old(self)@,
            old(self)@.len() > 0 ==> popped == Some(old(self)@[0])
                && final(self)@ == old(self)@.skip(1),
    {
        match self.head.take() {
            None => None,
            Some(node) => {
                let boxed = *node;
                self.head = boxed.next;
                Some(boxed.element)
            }
        }
    }

    /// Borrows the top element without removing it; `None` on an empty stack.
    pub fn peek(&self) -> (top: Option<&T>)
        ensures
            self@.len() == 0 ==> top is None,
            self@.len() > 0 ==> top is Some && *top.unwrap() == self@[0],
    {
        match &self.head {
            None => None,
            Some(node) => Some(&node.element),
        }
    }

    /// Mutably borrows the top element; writes through the returned
    /// reference replace the top of the stack in place.
    pub fn peek_mut(&mut self) -> (top: Option<&mut T>)
        ensures
            old(self)@.len() == 0 ==> top is None && final(self)@ == old(self)@,
            old(self)@.len() > 0 ==> top is Some && *top.unwrap() == old(self)@[0]
                && final(self)@ == old(self)@.update(0, *final(top.unwrap())),
    {
        match &mut self.head {
            None => None,
            Some(node) => Some(&mut node.element),
        }
    }

    /// Detaches and frees every node in turn, leaving the stack empty.
    /// The chain is walked by a loop, so arbitrarily long stacks are torn
    /// down without growing the call stack.
    pub fn clear(&mut self)
        ensures
            final(self)@ == Seq::<T>::empty(),
    {
        let mut cur_link = self.head.take();
        loop
            invariant
                final(self)@ == Seq::<T>::empty(),
            decreases link_seq(cur_link).len(),
        {
            match cur_link {
                None => {
                    break;
                }
                Some(mut node) => {
                    cur_link = node.next.take();
                }
            }
        }
    }

    /// Returns an iterator borrowing the stack; it yields the elements
    /// from the top of the stack down.
    pub fn iter<'a>(&'a self) -> (it: Iter<'a, T>)
        ensures
            it@ == self@,
    {
        match &self.head {
            None => Iter { next: None },
            Some(node) => Iter { next: Some(&**node) },
        }
    }

    /// Returns an iterator borrowing the stack mutably; it yields an
    /// exclusive reference to each element exactly once, from the top of
    /// the stack down, so elements can be changed in place.
    pub fn iter_mut<'a>(&'a mut self) -> (it: IterMut<'a, T>)
        ensures
            it@ == old(self)@,
            old(self)@.len() == 0 ==> final(self)@ == Seq::<T>::empty(),
    {
        match &mut self.head {
            None => IterMut { next: None },
            Some(node) => IterMut { next: Some(&mut **node) },
        }
    }
}

/// The stack contents after pushing the elements of `xs` in order onto an
/// empty stack: `push`'s contract prepends each element, so the view is
/// built from the most recent insertion down.
pub open spec fn pushed_seq<T>(xs: Seq<T>) -> Seq<T>
    decreases xs.len(),
{
    if xs.len() == 0 {
        Seq::empty()
    } else {
        seq![xs.last()] + pushed_seq(xs.drop_last())
    }
}

/// LIFO law: after pushing the elements of `xs` in order onto an empty
/// stack, the stack reads as `xs` reversed, so `pop` returns the elements
/// in strict reverse order of insertion: the first `pop` returns the most
/// recently pushed element and leaves the stack of the earlier pushes.
pub proof fn lemma_lifo_order<T>(xs: Seq<T>)
    ensures
        pushed_seq(xs) =~= xs.reverse(),
        xs.len() > 0 ==> pushed_seq(xs)[0] == xs.last()
            && pushed_seq(xs).skip(1) =~= pushed_seq(xs.drop_last()),
    decreases xs.len(),
{
    if xs.len() > 0 {
        lemma_lifo_order(xs.drop_last());
        assert forall|i: int| 0 <= i < xs.len() implies pushed_seq(xs)[i] == xs.reverse()[i] by {
            if i > 0 {
                assert(pushed_seq(xs)[i] == xs.drop_last().reverse()[i - 1]);
            }
        }
    }
}

/// A write through `peek_mut` replaces exactly the element `peek` and
/// `pop` name: a later `peek` sees the written value, and the rest of the
/// stack is untouched.
pub proof fn lemma_peek_mut_write_visible<T>(s: Seq<T>, v: T)
    requires
        s.len() > 0,
    ensures
        s.update(0, v)[0] == v,
        s.update(0, v).len() == s.len(),
        s.update(0, v).skip(1) =~= s.skip(1),
{
}

/// Iteration order law: an iterator starts at the stack's view and each
/// `next` yields the first remaining element, so on a stack built by
/// pushing the elements of `xs` in order, the `i`-th element yielded is
/// `xs[xs.len() - 1 - i]`: most recent insertion first.
pub proof fn lemma_iter_order<T>(xs: Seq<T>, i: int)
    requires
        0 <= i < xs.len(),
    ensures
        pushed_seq(xs)[i] == xs[xs.len() - 1 - i],
{
    lemma_lifo_order(xs);
}

/// An iterator over a mutably borrowed stack, yielding exclusive
/// references to the elements from the top of the stack down.
pub struct IterMut<'a, T> {
    next: Option<&'a mut Node<T>>,
}

/// The sequence of elements currently stored in the chain starting at the
/// mutably borrowed node `link`, from that node to the end of the chain.
spec fn mut_link_seq<T>(link: Option<&mut Node<T>>) -> Seq<T> {
    match link {
        None => Seq::empty(),
        Some(node) => seq![node.element] + link_seq(node.next),
    }
}

impl<'a, T> View for IterMut<'a, T> {
    type V = Seq<T>;

    /// A mutable iterator is modelled as the sequence of elements it has
    /// yet to yield, as they currently stand.
    closed spec fn view(&self) -> Seq<T> {
        mut_link_seq(self.next)
    }
}

impl<'a, T> IterMut<'a, T> {
    /// Yields an exclusive reference to the next remaining element, or
    /// `None` once every element has been yielded.
    pub fn next(&mut self) -> (item: Option<&'a mut T>)
        ensures
            old(self)@.len() == 0 ==> item is None && final(self)@ == old(self)@,
            old(self)@.len() > 0 ==> item is Some && *item.unwrap() == old(self)@[0]
                && final(self)@ == old(self)@.skip(1),
    {
        match self.next.take() {
            None => None,
            Some(node) => {
                let Node { element, next } = node;
                self.next = match next {
                    None => None,
                    Some(n) => Some(&mut **n),
                };
                Some(element)
            }
        }
    }
}

/// An iterator over a borrowed stack, yielding shared references to the
/// elements from the top of the stack down.
pub struct Iter<'a, T> {
    next: Option<&'a Node<T>>,
}

impl<'a, T> View for Iter<'a, T> {
    type V = Seq<T>;

    /// An iterator is modelled as the sequence of elements it has yet
    /// to yield.
    closed spec fn view(&self) -> Seq<T> {
        ref_link_seq(self.next)
    }
}

impl<'a, T> Iter<'a, T> {
    /// Yields a reference to the next remaining element, or `None` once
    /// every element has been yielded.
    pub fn next(&mut self) -> (item: Option<&'a T>)
        ensures
            old(self)@.len() == 0 ==> item is None && final(self)@ == old(self)@,
            old(self)@.len() > 0 ==> item is Some && *item.unwrap() == old(self)@[0]
                && final(self)@ == old(self)@.skip(1),
    {
        match self.next {
            None => None,
            Some(node) => {
                self.next = match &node.next {
                    None => None,
                    Some(n) => Some(&**n),
                };
                Some(&node.element)
            }
        }
    }
}

} // verus!
