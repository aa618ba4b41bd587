//! Growable array of inline elements with single-owner semantics.
//!
//! `Vector<T>` owns one contiguous buffer; pushing a value moves it into the
//! buffer, popping or removing moves it back out, and an out-of-range index
//! is an expected "no element there" condition surfaced as `None`, never a
//! panic.  `PVector<T>` is the reference-array variant: its slots stand for
//! references whose pointees are owned elsewhere, so releasing the wrapper
//! only ever releases the slot storage.
//!
//! The ownership ledger of the buffer is stated abstractly over `VecOp`:
//! every value that enters through `push`/`insert` either leaves again
//! through `pop`/`remove` or is still in the buffer when the wrapper is
//! dropped, so each element is destroyed exactly once.

use vstd::prelude::*;

verus! {

/// A growable array owning a contiguous buffer of inline `T` values.
pub struct Vector<T> {
    buf: Vec<T>,
}

impl<T> View for Vector<T> {
    type V = Seq<T>;

    closed spec fn view(&self) -> Seq<T> {
        self.buf@
    }
}

impl<T> Vector<T> {
    /// Creates an empty array with room reserved for `len` elements.
    pub fn new(len: usize) -> (r: Self)
        ensures
            r@ =~= Seq::<T>::empty(),
    {
        Vector { buf: Vec::with_capacity(len) }
    }

    /// Builds an array owning exactly the elements of `value`, in order.
    pub fn try_from(value: Vec<T>) -> (r: Result<Self, ()>)
        ensures
            r matches Ok(v) && v@ == value@,
    {
        Ok(Vector { buf: value })
    }

    /// Moves `value` into the buffer at the end; the buffer owns it afterwards.
    pub fn push(&mut self, value: T)
        ensures
            final(self)@ =~= old(self)@.push(value),
    {
        self.buf.push(value);
    }

    /// Moves the last element back out to the caller, or returns `None` when
    /// the array is empty.
    pub fn pop(&mut self) -> (r: Option<T>)
        ensures
            old(self)@.len() == 0 ==> r is None && final(self)@ =~= old(self)@,
            old(self)@.len() > 0 ==> r == Some(old(self)@.last())
                && final(self)@ =~= old(self)@.drop_last(),
    {
        self.buf.pop()
    }

    /// Moves `value` into the buffer before position `index`, shifting the
    /// tail up.  An index beyond the current length does not enter the
    /// buffer: the untouched value comes back to its caller.
    pub fn insert(&mut self, index: usize, value: T) -> (r: Option<T>)
        ensures
            index <= old(self)@.len() ==> r is None
                && final(self)@ =~= old(self)@.insert(index as int, value),
            index > old(self)@.len() ==> r == Some(value)
                && final(self)@ =~= old(self)@,
    {
        if index <= self.buf.len() {
            self.buf.insert(index, value);
            None
        } else {
            Some(value)
        }
    }

    /// Moves the element at `index` back out to the caller, shifting the
    /// tail down, or returns `None` when no element sits there.
    pub fn remove(&mut self, index: usize) -> (r: Option<T>)
        ensures
            index < old(self)@.len() ==> r == Some(old(self)@[index as int])
                && final(self)@ =~= old(self)@.remove(index as int),
            index >= old(self)@.len() ==> r is None && final(self)@ =~= old(self)@,
    {
        if index < self.buf.len() {
            Some(self.buf.remove(index))
        } else {
            None
        }
    }

    /// Number of elements currently owned by the buffer.
    pub fn len(&self) -> (r: usize)
        ensures
            r == self@.len(),
    {
        self.buf.len()
    }

    /// Zero-copy read-only view of the whole buffer.  The borrow rules keep
    /// it from overlapping any growing or shrinking operation.
    pub fn as_slice(&self) -> (r: &[T])
        ensures
            r@ == self@,
    {
        self.buf.as_slice()
    }

    /// Zero-copy mutable view of the whole buffer; elements may be changed
    /// in place but the length cannot.
    pub fn as_mut_slice(&mut self) -> (r: &mut [T])
        ensures
            r@ == old(self)@,
            final(r)@ == final(self)@,
    {
        self.buf.as_mut_slice()
    }
}

/// One mutation of a growable array, for stating the ownership ledger.
pub enum VecOp<T> {
    Push(T),
    Insert(int, T),
    Pop,
    RemoveAt(int),
}

/// The contents after applying one operation, mirroring the contracts of
/// `push`, `insert`, `pop` and `remove`.
pub open spec fn vec_op_apply<T>(s: Seq<T>, op: VecOp<T>) -> Seq<T> {
    match op {
        VecOp::Push(v) => s.push(v),
        VecOp::Insert(i, v) => if 0 <= i <= s.len() {
            s.insert(i, v)
        } else {
            s
        },
        VecOp::Pop => if s.len() > 0 {
            s.drop_last()
        } else {
            s
        },
        VecOp::RemoveAt(i) => if 0 <= i < s.len() {
            s.remove(i)
        } else {
            s
        },
    }
}

/// How many values the operation moves into the buffer (a rejected insert
/// hands its value straight back and never enters).
pub open spec fn vec_op_moved_in<T>(s: Seq<T>, op: VecOp<T>) -> nat {
    match op {
        VecOp::Push(_) => 1,
        VecOp::Insert(i, _) => if 0 <= i <= s.len() {
            1
        } else {
            0
        },
        VecOp::Pop => 0,
        VecOp::RemoveAt(_) => 0,
    }
}

/// How many values the operation moves back out to the caller.
pub open spec fn vec_op_moved_out<T>(s: Seq<T>, op: VecOp<T>) -> nat {
    match op {
        VecOp::Push(_) => 0,
        VecOp::Insert(_, _) => 0,
        VecOp::Pop => if s.len() > 0 {
            1
        } else {
            0
        },
        VecOp::RemoveAt(i) => if 0 <= i < s.len() {
            1
        } else {
            0
        },
    }
}

/// The contents after applying a whole sequence of operations.
pub open spec fn vec_run<T>(s: Seq<T>, ops: Seq<VecOp<T>>) -> Seq<T>
    decreases ops.len(),
{
    if ops.len() == 0 {
        s
    } else {
        vec_run(vec_op_apply(s, ops.first()), ops.drop_first())
    }
}

/// Total number of values moved into the buffer over a run.
pub open spec fn vec_moved_in<T>(s: Seq<T>, ops: Seq<VecOp<T>>) -> nat
    decreases ops.len(),
{
    if ops.len() == 0 {
        0
    } else {
        vec_op_moved_in(s, ops.first()) + vec_moved_in(
            vec_op_apply(s, ops.first()),
            ops.drop_first(),
        )
    }
}

/// Total number of values moved back out to callers over a run.
pub open spec fn vec_moved_out<T>(s: Seq<T>, ops: Seq<VecOp<T>>) -> nat
    decreases ops.len(),
{
    if ops.len() == 0 {
        0
    } else {
        vec_op_moved_out(s, ops.first()) + vec_moved_out(
            vec_op_apply(s, ops.first()),
            ops.drop_first(),
        )
    }
}

/// Ownership ledger of the buffer: over any sequence of `push`, `pop`,
/// `insert` and `remove` operations, the elements that entered the buffer
/// either left again to a caller or are still inside at the end.  Dropping
/// the array then destroys exactly the remaining elements, and callers
/// destroy the values handed out, so each element's constructor is matched
/// by exactly one destructor: no double free and no leak.
pub proof fn lemma_ownership_balance<T>(s: Seq<T>, ops: Seq<VecOp<T>>)
    ensures
        s.len() + vec_moved_in(s, ops) == vec_run(s, ops).len() + vec_moved_out(s, ops),
    decreases ops.len(),
{
    if ops.len() > 0 {
        let s1 = vec_op_apply(s, ops.first());
        assert(s.len() + vec_op_moved_in(s, ops.first()) == s1.len() + vec_op_moved_out(
            s,
            ops.first(),
        ));
        lemma_ownership_balance(s1, ops.drop_first());
    }
}

/// The values a drain-by-pop of the whole buffer hands out, in order: the
/// last element first, mirroring `pop`'s contract at every step.
pub open spec fn pops_of<T>(s: Seq<T>) -> Seq<T>
    decreases s.len(),
{
    if s.len() == 0 {
        Seq::empty()
    } else {
        seq![s.last()] + pops_of(s.drop_last())
    }
}

/// Round trip: pushing the values of `v` in order and then popping
/// `v.len()` times yields exactly `v` reversed.
pub proof fn lemma_push_pop_round_trip<T>(v: Seq<T>)
    ensures
        pops_of(v) =~= v.reverse(),
    decreases v.len(),
{
    if v.len() > 0 {
        lemma_push_pop_round_trip(v.drop_last());
        assert forall|i: int| 0 <= i < v.len() implies (seq![v.last()] + pops_of(v.drop_last()))[i]
            == v.reverse()[i] by {
            if i > 0 {
                assert(pops_of(v.drop_last())[i - 1] == v.drop_last().reverse()[i - 1]);
                assert(v.drop_last().reverse()[i - 1] == v.drop_last()[v.len() - 1 - i]);
            }
        }
    }
}

/// An array of references: the slots are owned by this wrapper, the pointees
/// by somebody else.  `T` stands for the referenced element; releasing the
/// wrapper releases only the slot storage and never a pointee.
pub struct PVector<T> {
    v: Vector<T>,
}

impl<T> View for PVector<T> {
    type V = Seq<T>;

    closed spec fn view(&self) -> Seq<T> {
        self.v@
    }
}

impl<T> PVector<T> {
    /// Creates an empty reference array with room reserved for `len` slots.
    pub fn new(len: usize) -> (r: Self)
        ensures
            r@ =~= Seq::<T>::empty(),
    {
        PVector { v: Vector::new(len) }
    }

    /// Stores one more reference at the end; the pointee stays owned by its
    /// present owner.
    pub fn push(&mut self, value: T)
        ensures
            final(self)@ =~= old(self)@.push(value),
    {
        self.v.push(value);
    }

    /// Hands the last reference back, or `None` when the array is empty.
    pub fn pop(&mut self) -> (r: Option<T>)
        ensures
            old(self)@.len() == 0 ==> r is None && final(self)@ =~= old(self)@,
            old(self)@.len() > 0 ==> r == Some(old(self)@.last())
                && final(self)@ =~= old(self)@.drop_last(),
    {
        self.v.pop()
    }

    /// Stores a reference before position `index`; an index beyond the
    /// length hands the reference back untouched.
    pub fn insert(&mut self, index: usize, value: T) -> (r: Option<T>)
        ensures
            index <= old(self)@.len() ==> r is None
                && final(self)@ =~= old(self)@.insert(index as int, value),
            index > old(self)@.len() ==> r == Some(value)
                && final(self)@ =~= old(self)@,
    {
        self.v.insert(index, value)
    }

    /// Hands the reference at `index` back, or `None` when no slot sits
    /// there.
    pub fn remove(&mut self, index: usize) -> (r: Option<T>)
        ensures
            index < old(self)@.len() ==> r == Some(old(self)@[index as int])
                && final(self)@ =~= old(self)@.remove(index as int),
            index >= old(self)@.len() ==> r is None && final(self)@ =~= old(self)@,
    {
        self.v.remove(index)
    }

    /// Number of reference slots currently held.
    pub fn len(&self) -> (r: usize)
        ensures
            r == self@.len(),
    {
        self.v.len()
    }

    /// Zero-copy read-only view of the slots.
    pub fn as_slice(&self) -> (r: &[T])
        ensures
            r@ == self@,
    {
        self.v.as_slice()
    }
}

} // verus!
