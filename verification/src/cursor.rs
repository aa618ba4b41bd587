//! One-shot forward cursor over a foreign iteration protocol.
//!
//! The foreign side hands over an opaque user state, an advance callback and
//! two optional finalizer callbacks.  `RzIterator` owns that state and walks
//! it lazily: each `next` asks the foreign side for one more element and a
//! foreign null means the source is finished.  Exhaustion is terminal — once
//! the first `None` has been returned, `next` keeps returning `None` without
//! ever invoking the advance callback again, so a state the foreign side
//! considers finished is never resumed.  Releasing the cursor runs each
//! present finalizer exactly once; `into_raw` hands the un-walked remainder
//! back instead and runs neither.
//!
//! The source is modelled by the plain values the advance callback would
//! yield, in order; `advances()` counts the callback's invocations.

use vstd::prelude::*;

verus! {

/// A one-shot forward cursor over foreign-owned elements.
pub struct RzIterator<T> {
    items: Vec<T>,
    pos: usize,
    exhausted: bool,
    free_cur: bool,
    free_user: bool,
}

impl<T> RzIterator<T> {
    /// The elements the source yields, in order.
    pub closed spec fn items(&self) -> Seq<T> {
        self.items@
    }

    /// How many elements have been yielded so far.
    pub closed spec fn pos(&self) -> int {
        if self.pos <= self.items@.len() {
            self.pos as int
        } else {
            self.items@.len() as int
        }
    }

    /// The elements still to come.
    pub open spec fn remaining(&self) -> Seq<T> {
        self.items().skip(self.pos())
    }

    /// Whether the terminal state has been reached: the foreign side already
    /// reported the end and must not be asked again.
    pub closed spec fn is_exhausted(&self) -> bool {
        self.exhausted
    }

    /// Number of invocations of the foreign advance callback so far.
    pub open spec fn advances(&self) -> int {
        self.pos() + if self.is_exhausted() {
            1int
        } else {
            0int
        }
    }

    /// Whether a "free current element" finalizer was supplied.
    pub closed spec fn has_free_cur(&self) -> bool {
        self.free_cur
    }

    /// Whether a "free user state" finalizer was supplied.
    pub closed spec fn has_free_user(&self) -> bool {
        self.free_user
    }

    /// Adopts a foreign cursor: the elements its advance callback will
    /// yield, and whether each of its two optional finalizers is present.
    pub fn from_raw(items: Vec<T>, free_cur: bool, free_user: bool) -> (r: Self)
        ensures
            r.items() == items@,
            r.pos() == 0,
            !r.is_exhausted(),
            r.advances() == 0,
            r.has_free_cur() == free_cur,
            r.has_free_user() == free_user,
    {
        RzIterator { items, pos: 0, exhausted: false, free_cur, free_user }
    }

    /// Asks the foreign side for the next element, unless the cursor is
    /// already exhausted.  A yielded element is borrowed: the foreign side
    /// keeps owning it, for as long as the cursor lives.
    pub fn next(&mut self) -> (r: Option<&T>)
        ensures
            final(self).items() == old(self).items(),
            final(self).has_free_cur() == old(self).has_free_cur(),
            final(self).has_free_user() == old(self).has_free_user(),
            old(self).is_exhausted() ==> r is None && final(self).is_exhausted()
                && final(self).pos() == old(self).pos()
                && final(self).advances() == old(self).advances(),
            !old(self).is_exhausted() && old(self).pos() < old(self).items().len() ==> (
            r matches Some(x) && *x == old(self).items()[old(self).pos()])
                && !final(self).is_exhausted() && final(self).pos() == old(self).pos() + 1
                && final(self).advances() == old(self).advances() + 1,
            !old(self).is_exhausted() && old(self).pos() >= old(self).items().len() ==> r is None
                && final(self).is_exhausted() && final(self).pos() == old(self).pos()
                && final(self).advances() == old(self).advances() + 1,
    {
        if self.exhausted {
            None
        } else if self.pos < self.items.len() {
            let idx = self.pos;
            self.pos = idx + 1;
            Some(&self.items[idx])
        } else {
            self.exhausted = true;
            None
        }
    }

    /// Releases the cursor, invoking the "free current element" finalizer
    /// and then the "free user state" finalizer, each exactly once and each
    /// only if present.  Returns which of the two ran, in that order.
    pub fn free(self) -> (r: (bool, bool))
        ensures
            r.0 == self.has_free_cur(),
            r.1 == self.has_free_user(),
    {
        (self.free_cur, self.free_user)
    }

    /// Transfers the foreign cursor state out without finalizing anything:
    /// the caller receives the elements the advance callback had still to
    /// yield, and this wrapper's release duty ends here.
    pub fn into_raw(self) -> (r: Vec<T>)
        ensures
            r@ == self.remaining(),
    {
        let mut items = self.items;
        let at = if self.pos <= items.len() {
            self.pos
        } else {
            items.len()
        };
        items.split_off(at)
    }
}

/// The results of `k` successive `next` calls on a cursor over `v` with the
/// forward position at `pos`, mirroring `next`'s contract step by step.
pub open spec fn cursor_outputs<T>(v: Seq<T>, pos: int, exhausted: bool, k: nat) -> Seq<Option<T>>
    decreases k,
{
    if k == 0 {
        Seq::empty()
    } else if exhausted {
        seq![None] + cursor_outputs(v, pos, true, (k - 1) as nat)
    } else if pos < v.len() {
        seq![Some(v[pos])] + cursor_outputs(v, pos + 1, false, (k - 1) as nat)
    } else {
        seq![None] + cursor_outputs(v, pos, true, (k - 1) as nat)
    }
}

/// How many times `k` successive `next` calls invoke the foreign advance
/// callback.
pub open spec fn cursor_calls<T>(v: Seq<T>, pos: int, exhausted: bool, k: nat) -> int
    decreases k,
{
    if k == 0 {
        0
    } else if exhausted {
        cursor_calls(v, pos, true, (k - 1) as nat)
    } else if pos < v.len() {
        1 + cursor_calls(v, pos + 1, false, (k - 1) as nat)
    } else {
        1 + cursor_calls(v, pos, true, (k - 1) as nat)
    }
}

/// One run of `k` calls from any reachable cursor state: an exhausted
/// cursor yields `None` forever without a single advance invocation, and a
/// live one yields the remaining elements in order, then `None` forever,
/// with at most one advance invocation past the source's end.
pub proof fn lemma_cursor_run<T>(v: Seq<T>, pos: int, exhausted: bool, k: nat)
    requires
        0 <= pos <= v.len(),
    ensures
        cursor_outputs(v, pos, exhausted, k).len() == k,
        exhausted ==> forall|i: int| 0 <= i < k ==> cursor_outputs(v, pos, exhausted, k)[i]
            is None,
        exhausted ==> cursor_calls(v, pos, exhausted, k) == 0,
        !exhausted ==> forall|i: int| 0 <= i < k ==> cursor_outputs(v, pos, exhausted, k)[i] == (
        if pos + i < v.len() {
            Some(v[pos + i])
        } else {
            None
        }),
        !exhausted ==> cursor_calls(v, pos, exhausted, k) == (if k <= v.len() - pos + 1 {
            k as int
        } else {
            v.len() - pos + 1
        }),
    decreases k,
{
    if k > 0 {
        let rest = (k - 1) as nat;
        if exhausted {
            lemma_cursor_run(v, pos, true, rest);
        } else if pos < v.len() {
            lemma_cursor_run(v, pos + 1, false, rest);
            assert forall|i: int| 0 <= i < k implies cursor_outputs(v, pos, false, k)[i] == (if pos
                + i < v.len() {
                Some(v[pos + i])
            } else {
                None
            }) by {
                if i > 0 {
                    assert(cursor_outputs(v, pos, false, k)[i] == cursor_outputs(
                        v,
                        pos + 1,
                        false,
                        rest,
                    )[i - 1]);
                }
            }
        } else {
            lemma_cursor_run(v, pos, true, rest);
        }
    }
}

/// Cursor termination: a fresh cursor over a source that yields exactly
/// `v.len()` items returns `Some` exactly `v.len()` times, in order, then
/// `None` forever after; and however many calls are made, the foreign
/// advance callback is invoked at most `v.len() + 1` times — never again
/// once the first `None` has been returned.
pub proof fn lemma_cursor_termination<T>(v: Seq<T>, k: nat)
    ensures
        cursor_outputs(v, 0, false, k).len() == k,
        forall|i: int| 0 <= i < k && i < v.len() ==> cursor_outputs(v, 0, false, k)[i] == Some(
            v[i],
        ),
        forall|i: int| v.len() <= i < k ==> cursor_outputs(v, 0, false, k)[i] is None,
        cursor_calls(v, 0, false, k) <= v.len() + 1,
{
    lemma_cursor_run(v, 0, false, k);
}

} // verus!
