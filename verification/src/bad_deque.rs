//! A double-ended queue over an exclusively owned singly linked chain.
//!
//! The abstract model of the deque is the sequence of its elements from
//! front to back: `push_front` and `pop_front` work at index 0, while
//! `push_back` and `pop_back` work at the last index, reached by walking
//! the chain. Every node is owned by exactly one predecessor, so the
//! verifier tracks each link statically instead of checking shared
//! mutable access at run time.

use vstd::prelude::*;

verus! {

/// A double-ended queue of `T`, holding the front of an owned chain of
/// nodes that ends at the back.
pub struct Deque<T> {
    head: Link<T>,
}

type Link<T> = Option<Box<Node<T>>>;

struct Node<T> {
    element: T,
    next: Link<T>,
}

/// The sequence of elements stored in the chain starting at `link`,
/// from the front of the deque to the back.
spec fn link_seq<T>(link: Link<T>) -> Seq<T>
    decreases link,
{
    match link {
        None => Seq::empty(),
        Some(node) => seq![node.element] + link_seq(node.next),
    }
}

/// Appends `element` behind the last node of the chain rooted at `link`.
fn push_back_link<T>(link: &mut Link<T>, element: T)
    ensures
        link_seq(*final(link)) == link_seq(*old(link)) + seq![element],
    decreases *old(link),
{
    match link.take() {
        None => {
            *link = Some(Box::new(Node { element, next: None }));
            assert(link_seq(*final(link)) =~= link_seq(*old(link)) + seq![element]);
        }
        Some(mut node) => {
            push_back_link(&mut node.next, element);
            *link = Some(node);
            assert(link_seq(*final(link)) =~= link_seq(*old(link)) + seq![element]);
        }
    }
}

/// Detaches the last node of the chain rooted at `link` and returns its
/// element; `None` when the chain is empty.
fn pop_back_link<T>(link: &mut Link<T>) -> (popped: Option<T>)
    ensures
        link_seq(*old(link)).len() == 0 ==> popped is None && *final(link) == *old(link),
        link_seq(*old(link)).len() > 0 ==> popped == Some(link_seq(*old(link)).last())
            && link_seq(*final(link)) == link_seq(*old(link)).drop_last(),
    decreases *old(link),
{
    match link.take() {
        None => None,
        Some(mut node) => {
            if node.next.is_some() {
                let popped = pop_back_link(&mut node.next);
                *link = Some(node);
                assert(link_seq(*final(link)) =~= link_seq(*old(link)).drop_last());
                popped
            } else {
                let boxed = *node;
                proof {
                    reveal_with_fuel(link_seq, 2);
                    assert(link_seq(*old(link)) =~= seq![boxed.element]);
                }
                Some(boxed.element)
            }
        }
    }
}

impl<T> View for Deque<T> {
    type V = Seq<T>;

    /// A deque is modelled as the sequence of its elements, front first.
    closed spec fn view(&self) -> Seq<T> {
        link_seq(self.head)
    }
}

impl<T> Deque<T> {
    /// Creates an empty deque.
    pub fn new() -> (deque: Self)
        ensures
            deque@ == Seq::<T>::empty(),
    {
        Deque { head: None }
    }

    /// Pushes `element` at the front of the deque.
    pub fn push_front(&mut self, element: T)
        ensures
            final(self)@ == seq![element] + old(self)@,
    {
        let new_node = Box::new(Node { element, next: self.head.take() });
        self.head = Some(new_node);
    }

    /// Removes and returns the front element; `None` on an empty deque.
    pub fn pop_front(&mut self) -> (popped: Option<T>)
        ensures
            old(self)@.len() == 0 ==> popped is None && final(self)@ == old(self)@,
            old(self)@.len() > 0 ==> popped == Some(old(self)@[0])
                && final(self)@ == old(self)@.skip(1),
    {
        match self.head.take() {
            None => None,
            Some(node) => {
                let boxed = *node;
                self.head = boxed.next;
                Some(boxed.element)
            }
        }
    }

    /// Pushes `element` at the back of the deque, the mirror image of
    /// `push_front`.
    pub fn push_back(&mut self, element: T)
        ensures
            final(self)@ == old(self)@ + seq![element],
    {
        push_back_link(&mut self.head, element);
    }

    /// Removes and returns the back element, the mirror image of
    /// `pop_front`; `None` on an empty deque.
    pub fn pop_back(&mut self) -> (popped: Option<T>)
        ensures
            old(self)@.len() == 0 ==> popped is None && final(self)@ == old(self)@,
            old(self)@.len() > 0 ==> popped == Some(old(self)@.last())
                && final(self)@ == old(self)@.drop_last(),
    {
        pop_back_link(&mut self.head)
    }

    /// Detaches and frees every node in turn by popping from the front
    /// until the deque is empty. The teardown is a loop, so arbitrarily
    /// long deques are released without growing the call stack.
    pub fn clear(&mut self)
        ensures
            final(self)@ == Seq::<T>::empty(),
    {
        loop
            ensures
                self@.len() == 0,
            decreases self@.len(),
        {
            let popped = self.pop_front();
            if popped.is_none() {
                break;
            }
        }
    }
}

/// Front round-trip law: pushing an element at the front and immediately
/// popping from the front returns that element and leaves the deque
/// exactly as it was; on an empty deque the pair of calls restores the
/// empty deque.
pub proof fn lemma_push_front_pop_front<T>(s: Seq<T>, x: T)
    ensures
        (seq![x] + s)[0] == x,
        (seq![x] + s).skip(1) =~= s,
{
}

/// Back round-trip law, the mirror image: pushing at the back and
/// immediately popping from the back returns the element and restores
/// the deque.
pub proof fn lemma_push_back_pop_back<T>(s: Seq<T>, x: T)
    ensures
        (s + seq![x]).last() == x,
        (s + seq![x]).drop_last() =~= s,
{
}

} // verus!
