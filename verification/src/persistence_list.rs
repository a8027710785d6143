//! A persistent singly linked list: versions share their nodes.
//!
//! Every handle is modelled as the sequence of elements it observes, head
//! first. `append` and `tail` build new handles and never change the
//! receiver, so older versions keep observing the list as it was; the
//! unchanged part of the chain is shared between versions through
//! reference counting, not copied.

use std::rc::Rc;
use vstd::prelude::*;

verus! {

/// One version of a persistent list: a handle on a shared, immutable
/// chain of nodes.
pub struct List<T> {
    head: Link<T>,
}

type Link<T> = Option<Rc<Node<T>>>;

struct Node<T> {
    element: T,
    next: Link<T>,
}

/// The sequence of elements stored in the chain starting at `link`,
/// from the head of the chain to its end.
spec fn link_seq<T>(link: Link<T>) -> Seq<T>
    decreases link,
{
    match link {
        None => Seq::empty(),
        Some(node) => seq![node.element] + link_seq(node.next),
    }
}

/// The sequence of elements stored in the chain starting at the borrowed
/// node `link`, from that node to the end of the chain.
spec fn ref_link_seq<T>(link: Option<&Node<T>>) -> Seq<T>
    decreases link,
{
    match link {
        None => Seq::empty(),
        Some(node) => seq![node.element] + link_seq(node.next),
    }
}

/// The view of the list a `tail` call hands back: one element shorter,
/// or still empty when the receiver was empty.
pub open spec fn tail_seq<T>(s: Seq<T>) -> Seq<T> {
    if s.len() == 0 {
        s
    } else {
        s.skip(1)
    }
}

impl<T> View for List<T> {
    type V = Seq<T>;

    /// A list version is modelled as the sequence of elements it
    /// observes, head first.
    closed spec fn view(&self) -> Seq<T> {
        link_seq(self.head)
    }
}

impl<T> List<T> {
    /// Creates an empty list version.
    pub fn new() -> (list: Self)
        ensures
            list@ == Seq::<T>::empty(),
    {
        List { head: None }
    }

    /// Returns a new version whose head is `element`, sharing the
    /// receiver's whole chain as its remainder. The receiver is not
    /// changed and keeps observing the list as it was.
    pub fn append(&self, element: T) -> (appended: List<T>)
        ensures
            appended@ == seq![element] + self@,
    {
        let next = match &self.head {
            None => None,
            Some(rc) => Some(rc.clone()),
        };
        List { head: Some(Rc::new(Node { element, next })) }
    }

    /// Returns a new version that shares the receiver's chain one node
    /// deeper; on an empty receiver the result is empty again. The
    /// receiver is not changed.
    pub fn tail(&self) -> (rest: List<T>)
        ensures
            rest@ == tail_seq(self@),
    {
        match &self.head {
            None => List { head: None },
            Some(node) => List {
                head: match &node.next {
                    None => None,
                    Some(rc) => Some(rc.clone()),
                },
            },
        }
    }

    /// Borrows the first element; `None` on an empty version.
    pub fn head(&self) -> (front: Option<&T>)
        ensures
            self@.len() == 0 ==> front is None,
            self@.len() > 0 ==> front is Some && *front.unwrap() == self@[0],
    {
        match &self.head {
            None => None,
            Some(node) => Some(&node.element),
        }
    }

    /// Returns an iterator borrowing this version; it yields the elements
    /// from the head toward the end of the chain.
    pub fn iter<'a>(&'a self) -> (it: Iter<'a, T>)
        ensures
            it@ == self@,
    {
        match &self.head {
            None => Iter { next: None },
            Some(node) => Iter { next: Some(&**node) },
        }
    }

    /// Releases this handle's hold on the chain, leaving it empty. The
    /// chain is walked by a loop, freeing each node that no other version
    /// still shares and stopping at the first node that is still shared,
    /// so the shared suffix stays intact for the other versions and the
    /// walk never grows the call stack.
    pub fn clear(&mut self)
        ensures
            final(self)@ == Seq::<T>::empty(),
    {
        let mut head_link = self.head.take();
        loop
            invariant
                final(self)@ == Seq::<T>::empty(),
            decreases link_seq(head_link).len(),
        {
            match head_link {
                None => {
                    break;
                }
                Some(node) => {
                    match Rc::try_unwrap(node) {
                        Ok(mut sole) => {
                            head_link = sole.next.take();
                        }
                        Err(_) => {
                            break;
                        }
                    }
                }
            }
        }
    }
}

/// An iterator over one list version, yielding shared references to the
/// elements from the head toward the end of the chain. The version is
/// immutable, so it can be iterated any number of times.
pub struct Iter<'a, T> {
    next: Option<&'a Node<T>>,
}

impl<'a, T> View for Iter<'a, T> {
    type V = Seq<T>;

    /// An iterator is modelled as the sequence of elements it has yet
    /// to yield.
    closed spec fn view(&self) -> Seq<T> {
        ref_link_seq(self.next)
    }
}

impl<'a, T> Iter<'a, T> {
    /// Yields a reference to the next remaining element, or `None` once
    /// every element has been yielded.
    pub fn next(&mut self) -> (item: Option<&'a T>)
        ensures
            old(self)@.len() == 0 ==> item is None && final(self)@ == old(self)@,
            old(self)@.len() > 0 ==> item is Some && *item.unwrap() == old(self)@[0]
                && final(self)@ == old(self)@.skip(1),
    {
        match self.next {
            None => None,
            Some(node) => {
                self.next = match &node.next {
                    None => None,
                    Some(n) => Some(&**n),
                };
                Some(&node.element)
            }
        }
    }
}

/// Persistence law: appending builds a new version whose head is the new
/// element and whose remainder is the whole base version; every element
/// of the base stays in place, one position deeper, so the base handle
/// keeps observing exactly what it observed before.
pub proof fn lemma_append_persistent<T>(s: Seq<T>, x: T)
    ensures
        (seq![x] + s)[0] == x,
        (seq![x] + s).skip(1) =~= s,
        (seq![x] + s).len() == s.len() + 1,
{
}

/// Branching law: two versions appended onto the same shared base each
/// observe only their own new element followed by the base, so branches
/// never leak their element into one another.
pub proof fn lemma_append_branches<T>(s: Seq<T>, x: T, y: T)
    ensures
        (seq![x] + s)[0] == x,
        (seq![y] + s)[0] == y,
        (seq![x] + s).skip(1) =~= (seq![y] + s).skip(1),
{
}

/// Boundary law: `tail` of an empty version is empty again, so repeated
/// `tail` calls at the end of a list keep returning empty versions
/// instead of failing.
pub proof fn lemma_tail_empty_idempotent<T>(s: Seq<T>)
    requires
        s.len() == 0,
    ensures
        tail_seq(s) == s,
        tail_seq(tail_seq(s)) == s,
{
}

} // verus!
