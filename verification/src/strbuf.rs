//! Dynamic string buffer with an owned foreign allocation.
//!
//! `StrBuf` owns one growable text buffer.  Reading is non-destructive and
//! repeatable (`to_string` copies the contents out), while `drain` is the
//! one ownership-transferring read: it empties the buffer and marks it
//! degenerate, and a drained buffer must not be drained a second time.
//! Either way the buffer itself is finalized exactly once, when the wrapper
//! goes out of scope.

use vstd::prelude::*;
use vstd::string::StringExecFns;

verus! {

/// An owned growable text buffer.
pub struct StrBuf {
    text: String,
    drained: bool,
}

impl View for StrBuf {
    type V = Seq<char>;

    closed spec fn view(&self) -> Seq<char> {
        self.text@
    }
}

impl StrBuf {
    /// Whether the contents have already been drained out: a second
    /// ownership-transferring read is not allowed.
    pub closed spec fn is_drained(&self) -> bool {
        self.drained
    }

    /// Initializes an empty buffer.
    pub fn new() -> (r: Self)
        ensures
            r@ =~= Seq::<char>::empty(),
            !r.is_drained(),
    {
        StrBuf { text: String::new(), drained: false }
    }

    /// Appends text at the end of the buffer.
    pub fn append(&mut self, t: &str)
        ensures
            final(self)@ =~= old(self)@ + t@,
            final(self).is_drained() == old(self).is_drained(),
    {
        self.text.append(t);
    }

    /// Copies the current contents out without disturbing the buffer's
    /// ownership; safe to call any number of times.
    pub fn to_string(&self) -> (r: String)
        ensures
            r@ == self@,
    {
        self.text.clone()
    }

    /// Extracts the contents, transferring their ownership to the caller
    /// and leaving the buffer empty and degenerate.  The buffer still needs
    /// its one finalization, but must not be drained again.
    pub fn drain(&mut self) -> (r: String)
        requires
            !old(self).is_drained(),
        ensures
            r@ == old(self)@,
            final(self)@ =~= Seq::<char>::empty(),
            final(self).is_drained(),
    {
        let mut out = String::new();
        core::mem::swap(&mut self.text, &mut out);
        self.drained = true;
        out
    }
}

} // verus!
