//! Ordered sequence of heap-boxed elements with borrowing traversal.
//!
//! `List<T>` owns both the node chain and each boxed element: `push` boxes a
//! value and hands the box to the chain, `pop` takes the tail-most box back,
//! and whatever still sits in the chain when the list is dropped is
//! destroyed through the box exactly once — the chain's element finalizer
//! and the box's own destructor are the same operation, so nothing is freed
//! twice and nothing leaks.
//!
//! Traversal borrows.  A `ListIter` yields references into the list, never
//! ownership of a node's payload, so repeated or partial traversals cannot
//! double-take an element; `pop` is the one ownership-consuming way out.

use vstd::prelude::*;

verus! {

/// An owning doubly-linked sequence of boxed `T` values.
pub struct List<T> {
    nodes: Vec<Box<T>>,
}

impl<T> View for List<T> {
    type V = Seq<T>;

    closed spec fn view(&self) -> Seq<T> {
        self.nodes@.map_values(|b: Box<T>| *b)
    }
}

impl<T> List<T> {
    /// Creates an empty sequence whose element finalizer is the boxed
    /// destructor of `T` itself.
    pub fn new() -> (r: Self)
        ensures
            r@ =~= Seq::<T>::empty(),
    {
        List { nodes: Vec::new() }
    }

    /// Boxes `value` and appends it at the tail; the sequence owns the box
    /// from here on.
    pub fn push(&mut self, value: T)
        ensures
            final(self)@ =~= old(self)@.push(value),
    {
        self.nodes.push(Box::new(value));
    }

    /// Takes the tail-most boxed element back out, or returns `None` when
    /// the sequence is empty.  The caller owns the box afterwards.
    pub fn pop(&mut self) -> (r: Option<Box<T>>)
        ensures
            old(self)@.len() == 0 ==> r is None && final(self)@ =~= old(self)@,
            old(self)@.len() > 0 ==> (r matches Some(b) && *b == old(self)@.last())
                && final(self)@ =~= old(self)@.drop_last(),
    {
        self.nodes.pop()
    }

    /// Number of elements currently in the chain.
    pub fn len(&self) -> (r: usize)
        ensures
            r == self@.len(),
    {
        self.nodes.len()
    }

    /// A fresh borrowing traversal: forward from the head and backward from
    /// the tail, both starting at the current ends.
    pub fn iter(&self) -> (r: ListIter<'_, T>)
        ensures
            r.items() == self@,
            r.fwd_pos() == 0,
            r.back_pos() == self@.len(),
    {
        ListIter { lst: self, head: 0, back: self.nodes.len() }
    }
}

/// A borrowing traversal over a `List`.  The forward and backward cursors
/// are independent: each walks the whole sequence from its own end.
pub struct ListIter<'a, T> {
    lst: &'a List<T>,
    head: usize,
    back: usize,
}

impl<'a, T> ListIter<'a, T> {
    /// The elements of the traversed list.
    pub closed spec fn items(&self) -> Seq<T> {
        self.lst@
    }

    /// Position of the forward cursor: how many elements it has yielded.
    pub closed spec fn fwd_pos(&self) -> int {
        self.head as int
    }

    /// Position of the backward cursor: how many elements it has yet to
    /// yield.
    pub closed spec fn back_pos(&self) -> int {
        self.back as int
    }

    /// Yields a borrow of the next element from the head, or `None` once
    /// the forward cursor has passed the tail.
    pub fn next(&mut self) -> (r: Option<&'a T>)
        ensures
            final(self).items() == old(self).items(),
            final(self).back_pos() == old(self).back_pos(),
            old(self).fwd_pos() < old(self).items().len() ==> (r matches Some(x) && *x
                == old(self).items()[old(self).fwd_pos()])
                && final(self).fwd_pos() == old(self).fwd_pos() + 1,
            old(self).fwd_pos() >= old(self).items().len() ==> r is None && final(self).fwd_pos()
                == old(self).fwd_pos(),
    {
        let lst = self.lst;
        if self.head < lst.nodes.len() {
            let idx = self.head;
            self.head = idx + 1;
            Some(&lst.nodes[idx])
        } else {
            None
        }
    }

    /// Yields a borrow of the next element from the tail, or `None` once
    /// the backward cursor has passed the head.
    pub fn next_back(&mut self) -> (r: Option<&'a T>)
        ensures
            final(self).items() == old(self).items(),
            final(self).fwd_pos() == old(self).fwd_pos(),
            old(self).back_pos() > 0 && old(self).back_pos() <= old(self).items().len() ==> (
            r matches Some(x) && *x == old(self).items()[old(self).back_pos() - 1])
                && final(self).back_pos() == old(self).back_pos() - 1,
            old(self).back_pos() <= 0 || old(self).back_pos() > old(self).items().len() ==> r
                is None && final(self).back_pos() == old(self).back_pos(),
    {
        let lst = self.lst;
        if self.back > 0 && self.back <= lst.nodes.len() {
            let idx = self.back - 1;
            self.back = idx;
            Some(&lst.nodes[idx])
        } else {
            None
        }
    }

    /// Length report of the underlying list, as a lower and an upper bound.
    pub fn size_hint(&self) -> (r: (usize, Option<usize>))
        ensures
            r.0 == self.items().len(),
            r.1 == Some(r.0),
    {
        let len = self.lst.nodes.len();
        (len, Some(len))
    }
}

/// What a forward traversal starting at `pos` yields, step by step as
/// `next` does.
pub open spec fn fwd_yields<T>(v: Seq<T>, pos: int) -> Seq<T>
    decreases v.len() - pos,
    when 0 <= pos <= v.len()
{
    if pos >= v.len() {
        Seq::empty()
    } else {
        seq![v[pos]] + fwd_yields(v, pos + 1)
    }
}

/// What a backward traversal with `pos` elements still ahead yields, step
/// by step as `next_back` does.
pub open spec fn bwd_yields<T>(v: Seq<T>, pos: int) -> Seq<T>
    decreases pos,
    when 0 <= pos <= v.len()
{
    if pos <= 0 {
        Seq::empty()
    } else {
        seq![v[pos - 1]] + bwd_yields(v, pos - 1)
    }
}

/// A forward traversal from position `pos` yields exactly the suffix of the
/// list from there on.
pub proof fn lemma_forward_from<T>(v: Seq<T>, pos: int)
    requires
        0 <= pos <= v.len(),
    ensures
        fwd_yields(v, pos) =~= v.skip(pos),
    decreases v.len() - pos,
{
    if pos < v.len() {
        lemma_forward_from(v, pos + 1);
    }
}

/// A backward traversal with `pos` elements ahead yields exactly the first
/// `pos` elements, in reverse.
pub proof fn lemma_backward_from<T>(v: Seq<T>, pos: int)
    requires
        0 <= pos <= v.len(),
    ensures
        bwd_yields(v, pos) =~= v.take(pos).reverse(),
    decreases pos,
{
    if pos > 0 {
        lemma_backward_from(v, pos - 1);
    }
}

/// Iteration order: after pushing the values of `v` in order, a complete
/// forward traversal yields `v` in insertion order and a complete backward
/// traversal yields `v` reversed.
pub proof fn lemma_iteration_order<T>(v: Seq<T>)
    ensures
        fwd_yields(v, 0) =~= v,
        bwd_yields(v, v.len() as int) =~= v.reverse(),
{
    lemma_forward_from(v, 0);
    lemma_backward_from(v, v.len() as int);
    assert(v.skip(0) =~= v);
    assert(v.take(v.len() as int) =~= v);
}

} // verus!
